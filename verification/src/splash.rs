//! The splash screen: the progress signals it listens for, how each changes
//! what it shows, and the signals its test sender emits.
use vstd::prelude::*;

verus! {

/// A progress signal: each field, when present, updates the screen.
pub struct SplashSignal {
    pub progress: Option<u32>,
    pub status: Option<String>,
    pub done: Option<bool>,
}

/// What the splash screen shows.
pub struct SplashState {
    /// The progress in percent, at most 100.
    pub progress: u32,
    /// The status line.
    pub status: String,
    /// Whether the screen should close.
    pub done: bool,
}

/// The highest progress the screen shows.
pub const MAX_PROGRESS: u32 = 100;

/// The screen after `signal`: progress capped at 100, the status replaced
/// when one is given, and done once a signal says so.
pub open spec fn after_signal(
    progress: u32,
    status: Seq<char>,
    done: bool,
    signal: SplashSignal,
) -> (u32, Seq<char>, bool) {
    (
        match signal.progress {
            Some(p) => if p > MAX_PROGRESS { MAX_PROGRESS } else { p },
            None => progress,
        },
        match signal.status {
            Some(s) => s@,
            None => status,
        },
        done || signal.done == Some(true),
    )
}

impl SplashState {
    /// The screen before any signal: no progress and `Initializing...`.
    pub fn new() -> (r: SplashState)
        ensures
            r.progress == 0,
            r.status@ == "Initializing..."@,
            !r.done,
    {
        SplashState { progress: 0, status: String::from_str("Initializing..."), done: false }
    }

    /// Applies a signal. Returns whether to keep listening: the listener
    /// stops at the first signal that says the work is done.
    pub fn apply(&mut self, signal: SplashSignal) -> (keep_listening: bool)
        ensures
            (final(self).progress, final(self).status@, final(self).done) == after_signal(
                old(self).progress,
                old(self).status@,
                old(self).done,
                signal,
            ),
            keep_listening == (signal.done != Some(true)),
            final(self).done == (old(self).done || signal.done == Some(true)),
            signal.progress is None ==> final(self).progress == old(self).progress,
            signal.progress matches Some(p) ==> final(self).progress == if p > 100 {
                100
            } else {
                p
            },
            signal.status is None ==> final(self).status == old(self).status,
            signal.status matches Some(t) ==> final(self).status == t,
    {
        match signal.progress {
            Some(p) => {
                self.progress = if p > MAX_PROGRESS { MAX_PROGRESS } else { p };
            },
            None => {},
        }
        match signal.status {
            Some(s) => {
                self.status = s;
            },
            None => {},
        }
        match signal.done {
            Some(true) => {
                self.done = true;
                false
            },
            _ => true,
        }
    }
}

/// The name the splash screen shows: the file stem of the launched program,
/// `Application` when it has none, and `Splash Demo` when nothing was launched.
pub fn splash_app_name(target_stem: Option<Option<String>>) -> (r: String)
    ensures
        match target_stem {
            None => r@ == "Splash Demo"@,
            Some(None) => r@ == "Application"@,
            Some(Some(stem)) => r == stem,
        },
{
    match target_stem {
        None => String::from_str("Splash Demo"),
        Some(None) => String::from_str("Application"),
        Some(Some(stem)) => stem,
    }
}

/// The prefix Windows writes before a verbatim path, `\\?\`.
pub open spec fn verbatim_prefix() -> Seq<char> {
    seq!['\\', '\\', '?', '\\']
}

/// A path as the launched program is given it: without the verbatim prefix
/// `\\?\` that canonical Windows paths carry, which some programs do not
/// accept.
pub open spec fn without_verbatim_prefix(path: Seq<char>) -> Seq<char> {
    if path.len() >= 4 && path.take(4) == verbatim_prefix() {
        path.skip(4)
    } else {
        path
    }
}

/// `path` without the verbatim prefix `\\?\`, if it has one.
pub fn strip_verbatim_prefix(path: &str) -> (r: String)
    ensures
        r@ == without_verbatim_prefix(path@),
{
    let n = path.unicode_len();
    if n >= 4 && path.get_char(0) == '\\' && path.get_char(1) == '\\' && path.get_char(2) == '?'
        && path.get_char(3) == '\\' {
        assert(path@.take(4) =~= verbatim_prefix());
        let rest = path.substring_char(4, n);
        assert(rest@ =~= path@.skip(4));
        String::from_str(rest)
    } else {
        proof {
            if n >= 4 && path@.take(4) == verbatim_prefix() {
                assert(path@[0] == path@.take(4)[0]);
                assert(path@[1] == path@.take(4)[1]);
                assert(path@[2] == path@.take(4)[2]);
                assert(path@[3] == path@.take(4)[3]);
            }
        }
        String::from_str(path)
    }
}

/// `path` with every backslash turned into a slash.
pub open spec fn forward_slashes(path: Seq<char>) -> Seq<char> {
    Seq::new(path.len(), |i: int| if path[i] == '\\' { '/' } else { path[i] })
}

/// The IPC endpoint of the splash pipe whose file is at `path`.
pub fn splash_endpoint(path: &str) -> (r: String)
    ensures
        r@ == "ipc://"@ + forward_slashes(path@),
{
    let mut out = String::from_str("ipc://");
    let ghost start = out@;
    let n = path.unicode_len();
    let mut i: usize = 0;
    while i < n
        invariant
            n == path@.len(),
            i <= n,
            out@ == start + forward_slashes(path@.take(i as int)),
        decreases n - i,
    {
        let c = path.get_char(i);
        proof {
            reveal_strlit("/");
        }
        if c == '\\' {
            out.append("/");
        } else {
            let piece = path.substring_char(i, i + 1);
            assert(piece@ =~= seq![c]);
            out.append(piece);
        }
        assert(forward_slashes(path@.take(i + 1)) =~= forward_slashes(path@.take(i as int)).push(
            if c == '\\' { '/' } else { c },
        ));
        i = i + 1;
    }
    assert(path@.take(n as int) =~= path@);
    out
}

/// The (progress, status) steps the test sender emits before its last signal.
pub open spec fn tester_step(i: int) -> (u32, Seq<char>) {
    if i == 0 {
        (10, "Loading configuration..."@)
    } else if i == 1 {
        (30, "Initializing graphics..."@)
    } else if i == 2 {
        (50, "Connecting to database..."@)
    } else if i == 3 {
        (80, "Synchronizing data..."@)
    } else {
        (100, "Ready!"@)
    }
}

fn step_signal(progress: u32, status: &str, done: bool) -> (r: SplashSignal)
    ensures
        r.progress == Some(progress),
        r.status matches Some(s) && s@ == status@,
        r.done == Some(done),
{
    SplashSignal { progress: Some(progress), status: Some(String::from_str(status)), done: Some(done) }
}

/// The signals of the test sender, in order: five progress steps, then a
/// last signal at 100% that says the work is done.
pub fn tester_signals() -> (r: Vec<SplashSignal>)
    ensures
        r@.len() == 6,
        forall|i: int|
            0 <= i < 5 ==> {
                &&& (#[trigger] r@[i]).progress == Some(tester_step(i).0)
                &&& r@[i].status matches Some(s) && s@ == tester_step(i).1
                &&& r@[i].done == Some(false)
            },
        r@[5].progress == Some(100u32),
        r@[5].status matches Some(s) && s@ == "Starting application..."@,
        r@[5].done == Some(true),
{
    let mut v: Vec<SplashSignal> = Vec::new();
    v.push(step_signal(10, "Loading configuration...", false));
    v.push(step_signal(30, "Initializing graphics...", false));
    v.push(step_signal(50, "Connecting to database...", false));
    v.push(step_signal(80, "Synchronizing data...", false));
    v.push(step_signal(100, "Ready!", false));
    v.push(step_signal(100, "Starting application...", true));
    v
}

/// The screen after each of `signals` in turn, starting from `start`.
pub open spec fn after_signals(
    start: (u32, Seq<char>, bool),
    signals: Seq<SplashSignal>,
) -> (u32, Seq<char>, bool)
    decreases signals.len(),
{
    if signals.len() == 0 {
        start
    } else {
        let before = after_signals(start, signals.drop_last());
        after_signal(before.0, before.1, before.2, signals.last())
    }
}

/// Whatever signals arrive, the progress shown never exceeds 100 once it
/// starts within bounds, and once the screen is done it stays done.
pub proof fn lemma_splash_bounds(start: (u32, Seq<char>, bool), signals: Seq<SplashSignal>)
    requires
        start.0 <= MAX_PROGRESS,
    ensures
        after_signals(start, signals).0 <= MAX_PROGRESS,
        start.2 ==> after_signals(start, signals).2,
    decreases signals.len(),
{
    if signals.len() > 0 {
        lemma_splash_bounds(start, signals.drop_last());
    }
}

/// The test sender's signals, applied in order to a fresh screen, leave it
/// done at 100% showing `Starting application...`; only the last of them
/// stops the listener.
pub proof fn lemma_tester_run_finishes(signals: Seq<SplashSignal>)
    requires
        signals.len() == 6,
        forall|i: int|
            0 <= i < 5 ==> {
                &&& (#[trigger] signals[i]).progress == Some(tester_step(i).0)
                &&& signals[i].status matches Some(s) && s@ == tester_step(i).1
                &&& signals[i].done == Some(false)
            },
        signals[5].progress == Some(100u32),
        signals[5].status matches Some(s) && s@ == "Starting application..."@,
        signals[5].done == Some(true),
    ensures
        after_signals((0, "Initializing..."@, false), signals) == (
            100u32,
            "Starting application..."@,
            true,
        ),
        forall|i: int| 0 <= i < 5 ==> (#[trigger] signals[i]).done != Some(true),
        signals[5].done == Some(true),
{
    let start = (0u32, "Initializing..."@, false);
    assert(signals.drop_last().drop_last().drop_last().drop_last().drop_last().drop_last().len() == 0);
    let s0 = signals[0];
    let s4 = signals[4];
    assert(s0.done == Some(false));
    assert(s4.done == Some(false));
    assert(signals[1].done == Some(false));
    assert(signals[2].done == Some(false));
    assert(signals[3].done == Some(false));
    reveal_with_fuel(after_signals, 7);
    assert(signals.drop_last().last() == signals[4]);
    assert(signals.drop_last().drop_last().last() == signals[3]);
    assert(signals.drop_last().drop_last().drop_last().last() == signals[2]);
    assert(signals.drop_last().drop_last().drop_last().drop_last().last() == signals[1]);
    assert(signals.drop_last().drop_last().drop_last().drop_last().drop_last().last() == signals[0]);
    assert(!after_signals(start, signals.drop_last()).2);
}

/// The position of the first signal that says the work is done, or the
/// number of signals when none does.
pub open spec fn first_done(signals: Seq<SplashSignal>) -> nat
    decreases signals.len(),
{
    if signals.len() == 0 {
        0
    } else if signals[0].done == Some(true) {
        0
    } else {
        1 + first_done(signals.drop_first())
    }
}

/// The signals a listener takes in from `signals`: every one up to and
/// including the first that says the work is done; it takes no more after it.
pub open spec fn heard(signals: Seq<SplashSignal>) -> Seq<SplashSignal> {
    if first_done(signals) < signals.len() {
        signals.take(first_done(signals) as int + 1)
    } else {
        signals
    }
}

/// The screen after a listener has taken in what it hears of `signals`.
pub open spec fn after_listening(
    start: (u32, Seq<char>, bool),
    signals: Seq<SplashSignal>,
) -> (u32, Seq<char>, bool) {
    after_signals(start, heard(signals))
}

proof fn lemma_first_done(signals: Seq<SplashSignal>)
    ensures
        first_done(signals) <= signals.len(),
        forall|i: int| 0 <= i < first_done(signals) ==> (#[trigger] signals[i]).done != Some(true),
        first_done(signals) < signals.len() ==> signals[first_done(signals) as int].done == Some(true),
    decreases signals.len(),
{
    if signals.len() > 0 && signals[0].done != Some(true) {
        let rest = signals.drop_first();
        lemma_first_done(rest);
        assert forall|i: int| 0 <= i < first_done(signals) implies (#[trigger] signals[i]).done
            != Some(true) by {
            if i > 0 {
                assert(signals[i] == rest[i - 1]);
            }
        }
        if first_done(signals) < signals.len() {
            assert(signals[first_done(signals) as int] == rest[first_done(rest) as int]);
        }
    }
}

proof fn lemma_first_done_extend(signals: Seq<SplashSignal>, more: Seq<SplashSignal>)
    requires
        first_done(signals) < signals.len(),
    ensures
        first_done(signals + more) == first_done(signals),
    decreases signals.len(),
{
    if signals[0].done != Some(true) {
        assert((signals + more).drop_first() =~= signals.drop_first() + more);
        assert((signals + more)[0] == signals[0]);
        lemma_first_done_extend(signals.drop_first(), more);
    } else {
        assert((signals + more)[0] == signals[0]);
    }
}

/// A splash listener's run: it keeps listening through every signal before
/// the first that says the work is done and stops at that one; signals that
/// arrive after it change nothing; the screen it leaves is done exactly when
/// it heard such a signal; and at every point of the run the progress shown
/// is at most 100 and a finished screen stays finished.
pub proof fn lemma_listener_run(
    start: (u32, Seq<char>, bool),
    signals: Seq<SplashSignal>,
    more: Seq<SplashSignal>,
)
    requires
        start.0 <= MAX_PROGRESS,
    ensures
        forall|i: int| 0 <= i < first_done(signals) ==> (#[trigger] signals[i]).done != Some(true),
        first_done(signals) < signals.len() ==> signals[first_done(signals) as int].done == Some(
            true,
        ),
        first_done(signals) < signals.len() ==> after_listening(start, signals + more)
            == after_listening(start, signals),
        first_done(signals) < signals.len() ==> after_listening(start, signals).2,
        first_done(signals) == signals.len() ==> after_listening(start, signals) == after_signals(
            start,
            signals,
        ),
        forall|k: int|
            0 <= k <= heard(signals).len() ==> (#[trigger] after_signals(
                start,
                heard(signals).take(k),
            )).0 <= MAX_PROGRESS && (start.2 ==> after_signals(start, heard(signals).take(k)).2),
{
    lemma_first_done(signals);
    if first_done(signals) < signals.len() {
        lemma_first_done_extend(signals, more);
        let fd = first_done(signals) as int;
        assert((signals + more).take(fd + 1) =~= signals.take(fd + 1));
        let h = heard(signals);
        assert(h.len() == fd + 1);
        assert(h.last() == signals[fd]);
    }
    assert forall|k: int| 0 <= k <= heard(signals).len() implies (#[trigger] after_signals(
        start,
        heard(signals).take(k),
    )).0 <= MAX_PROGRESS && (start.2 ==> after_signals(start, heard(signals).take(k)).2) by {
        lemma_splash_bounds(start, heard(signals).take(k));
    }
}

/// Only a signal's `done` field can close the screen: a signal whose `done`
/// is not `Some(true)` leaves the done flag as it was, whatever progress or
/// status it carries, and one whose `done` is `Some(true)` always sets it.
/// Progress is the signal's value capped at 100, or unchanged without one.
pub proof fn lemma_only_done_closes(
    progress: u32,
    status: Seq<char>,
    done: bool,
    signal: SplashSignal,
)
    ensures
        signal.done != Some(true) ==> after_signal(progress, status, done, signal).2 == done,
        signal.done == Some(true) ==> after_signal(progress, status, done, signal).2,
        signal.progress matches Some(p) ==> after_signal(progress, status, done, signal).0 == if p
            > 100 {
            100
        } else {
            p
        },
        signal.progress is None ==> after_signal(progress, status, done, signal).0 == progress,
{
}

} // verus!
