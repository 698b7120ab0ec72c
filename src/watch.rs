//! Change detection on a stored configuration.
//!
//! Each poll's content is reduced to a digest and compared with the digest
//! of the previous poll; only the latest digest is kept. [`WatchLoop`] holds
//! the decisions of the polling loop; the caller performs the fetches, sleeps
//! and listener calls that it asks for, and reports each outcome back.
use crate::text::option_view;
use vstd::prelude::*;

verus! {

/// The MD5 digest of a text's UTF-8 bytes, in lower-case hexadecimal.
pub uninterp spec fn md5_hex(content: Seq<char>) -> Seq<char>;

/// Relies on `md5::compute` over the text's bytes, written out with the
/// digest's `LowerHex` format.
#[verifier::external_body]
fn md5_digest(content: &str) -> (r: String)
    ensures
        r@ == md5_hex(content@),
{
    format!("{:x}", md5::compute(content))
}

/// What a fetch yields for comparison: its content, or empty text when it failed.
pub open spec fn fetched_text(fetched: Option<Seq<char>>) -> Seq<char> {
    match fetched {
        Some(c) => c,
        None => Seq::empty(),
    }
}

/// One poll: the digest kept afterwards, and the content handed to the
/// listener, if the digest changed.
pub open spec fn poll_step(prev_digest: Seq<char>, fetched: Option<Seq<char>>) -> (
    Seq<char>,
    Option<Seq<char>>,
) {
    let content = fetched_text(fetched);
    let digest = md5_hex(content);
    if digest != prev_digest {
        (digest, Some(content))
    } else {
        (prev_digest, None)
    }
}

/// A configuration's content with its digest.
#[derive(Debug)]
pub struct ConfigSnapshot {
    pub content: String,
    pub digest: String,
}

impl ConfigSnapshot {
    /// The snapshot of `content`.
    pub fn of(content: String) -> (r: ConfigSnapshot)
        ensures
            r.content == content,
            r.digest@ == md5_hex(content@),
    {
        let digest = md5_digest(content.as_str());
        ConfigSnapshot { content, digest }
    }

    /// The snapshot of a fetch's outcome; a failed fetch counts as empty content.
    pub fn fetched(fetched: Option<String>) -> (r: ConfigSnapshot)
        ensures
            r.content@ == fetched_text(option_view(fetched)),
            r.digest@ == md5_hex(r.content@),
    {
        let content = match fetched {
            Some(c) => c,
            None => String::new(),
        };
        ConfigSnapshot::of(content)
    }
}

/// The state of a watch: the digest of the content last seen.
#[derive(Debug)]
pub struct ConfigWatch {
    pub prev_digest: String,
}

impl ConfigWatch {
    /// A watch whose baseline is `baseline`.
    pub fn new(baseline: ConfigSnapshot) -> (r: ConfigWatch)
        ensures
            r.prev_digest == baseline.digest,
    {
        ConfigWatch { prev_digest: baseline.digest }
    }

    /// A watch whose baseline is the outcome of the first fetch.
    pub fn start(fetched: Option<String>) -> (r: ConfigWatch)
        ensures
            r.prev_digest@ == md5_hex(fetched_text(option_view(fetched))),
    {
        ConfigWatch::new(ConfigSnapshot::fetched(fetched))
    }

    /// Compares `current` with the last digest seen. When they differ,
    /// `current` becomes the last seen and its content is returned for the
    /// listener; else nothing changes and nothing is returned.
    pub fn observe(&mut self, current: ConfigSnapshot) -> (r: Option<String>)
        ensures
            current.digest@ != old(self).prev_digest@ ==> r == Some(current.content)
                && final(self).prev_digest == current.digest,
            current.digest@ == old(self).prev_digest@ ==> r is None && *final(self) == *old(self),
    {
        if current.digest == self.prev_digest {
            None
        } else {
            self.prev_digest = current.digest;
            Some(current.content)
        }
    }

    /// One poll on the outcome of a fetch; a failed fetch counts as empty
    /// content. Returns the content for the listener when it changed.
    pub fn poll(&mut self, fetched: Option<String>) -> (r: Option<String>)
        ensures
            (final(self).prev_digest@, option_view(r)) == poll_step(
                old(self).prev_digest@,
                option_view(fetched),
            ),
    {
        self.observe(ConfigSnapshot::fetched(fetched))
    }
}

/// After a poll, the digest kept is that of the content just polled, so a
/// second poll that returns the same content notifies no one.
pub proof fn lemma_identical_polls_are_silent(prev_digest: Seq<char>, fetched: Option<Seq<char>>)
    ensures
        poll_step(prev_digest, fetched).0 == md5_hex(fetched_text(fetched)),
        poll_step(poll_step(prev_digest, fetched).0, fetched) == (
            poll_step(prev_digest, fetched).0,
            None::<Seq<char>>,
        ),
{
}

/// After a poll of `first`, a poll of `second` with another digest notifies
/// exactly once, with the newer content, and keeps the newer digest.
pub proof fn lemma_changed_content_notifies_once(
    prev_digest: Seq<char>,
    first: Option<Seq<char>>,
    second: Option<Seq<char>>,
)
    requires
        md5_hex(fetched_text(first)) != md5_hex(fetched_text(second)),
    ensures
        poll_step(poll_step(prev_digest, first).0, second) == (
            md5_hex(fetched_text(second)),
            Some(fetched_text(second)),
        ),
{
}

/// A failed fetch is compared as empty content.
pub proof fn lemma_failed_poll_counts_as_empty(prev_digest: Seq<char>)
    ensures
        poll_step(prev_digest, None) == poll_step(prev_digest, Some(Seq::<char>::empty())),
{
}


/// What the polling loop waits for.
#[derive(Clone, Copy, Debug, PartialEq, Eq, Structural)]
pub enum WatchPhase {
    /// The first fetch, which sets the baseline.
    Baseline,
    /// A fetch to compare with the baseline.
    Polling,
    /// The return of the listener.
    Notifying,
    /// The end of the sleep before the next fetch.
    Sleeping,
}

/// The outcome of what the polling loop last asked for.
#[derive(Debug)]
pub enum WatchEvent {
    /// The content fetched; none when the fetch failed.
    Fetched(Option<String>),
    /// The listener has returned.
    ListenerReturned,
    /// The sleep is over.
    SleepEnded,
}

/// What the caller is to do next.
#[derive(Debug)]
pub enum WatchAction {
    /// Fetch the configuration.
    Fetch,
    /// Call the listener with this content.
    Notify { content: String },
    /// Sleep this many seconds.
    Sleep { secs: u64 },
}

/// The state of a polling loop.
#[derive(Debug)]
pub struct WatchLoop {
    pub watch: ConfigWatch,
    pub interval_secs: u64,
    pub phase: WatchPhase,
}

/// A polling loop as its decisions see it.
pub struct WatchLoopView {
    pub prev_digest: Seq<char>,
    pub interval_secs: u64,
    pub phase: WatchPhase,
}

/// An outcome as the polling loop's decisions see it.
pub enum WatchEventView {
    Fetched(Option<Seq<char>>),
    ListenerReturned,
    SleepEnded,
}

/// An action as the polling loop's decisions see it.
pub enum WatchActionView {
    Fetch,
    Notify(Seq<char>),
    Sleep(u64),
}

impl View for WatchLoop {
    type V = WatchLoopView;

    open spec fn view(&self) -> WatchLoopView {
        WatchLoopView {
            prev_digest: self.watch.prev_digest@,
            interval_secs: self.interval_secs,
            phase: self.phase,
        }
    }
}

impl View for WatchEvent {
    type V = WatchEventView;

    open spec fn view(&self) -> WatchEventView {
        match self {
            WatchEvent::Fetched(f) => WatchEventView::Fetched(option_view(*f)),
            WatchEvent::ListenerReturned => WatchEventView::ListenerReturned,
            WatchEvent::SleepEnded => WatchEventView::SleepEnded,
        }
    }
}

impl View for WatchAction {
    type V = WatchActionView;

    open spec fn view(&self) -> WatchActionView {
        match self {
            WatchAction::Fetch => WatchActionView::Fetch,
            WatchAction::Notify { content } => WatchActionView::Notify(content@),
            WatchAction::Sleep { secs } => WatchActionView::Sleep(*secs),
        }
    }
}

/// One decision of the polling loop. The first fetch sets the baseline; each
/// later fetch is compared with it, and a change is handed to the listener
/// before the loop sleeps; after each sleep comes a fetch. The loop has no
/// end: an outcome out of turn makes it sleep an interval and poll again
/// (or, before the baseline, fetch again).
pub open spec fn watch_transition(s: WatchLoopView, event: WatchEventView) -> (
    WatchLoopView,
    WatchActionView,
) {
    let sleep = (WatchLoopView { phase: WatchPhase::Sleeping, ..s }, WatchActionView::Sleep(s.interval_secs));
    match (s.phase, event) {
        (WatchPhase::Baseline, WatchEventView::Fetched(f)) => (
            WatchLoopView {
                prev_digest: md5_hex(fetched_text(f)),
                phase: WatchPhase::Sleeping,
                ..s
            },
            WatchActionView::Sleep(s.interval_secs),
        ),
        (WatchPhase::Baseline, _) => (s, WatchActionView::Fetch),
        (WatchPhase::Polling, WatchEventView::Fetched(f)) => {
            let (digest, notice) = poll_step(s.prev_digest, f);
            match notice {
                Some(content) => (
                    WatchLoopView { prev_digest: digest, phase: WatchPhase::Notifying, ..s },
                    WatchActionView::Notify(content),
                ),
                None => (
                    WatchLoopView { prev_digest: digest, phase: WatchPhase::Sleeping, ..s },
                    WatchActionView::Sleep(s.interval_secs),
                ),
            }
        },
        (WatchPhase::Sleeping, WatchEventView::SleepEnded) => (
            WatchLoopView { phase: WatchPhase::Polling, ..s },
            WatchActionView::Fetch,
        ),
        _ => sleep,
    }
}

impl WatchLoop {
    /// A polling loop with the given interval, and its first action: the
    /// fetch that sets the baseline.
    pub fn start(interval_secs: u64) -> (r: (WatchLoop, WatchAction))
        ensures
            r.0@ == (WatchLoopView {
                prev_digest: Seq::empty(),
                interval_secs,
                phase: WatchPhase::Baseline,
            }),
            r.1@ == WatchActionView::Fetch,
    {
        (
            WatchLoop {
                watch: ConfigWatch { prev_digest: String::new() },
                interval_secs,
                phase: WatchPhase::Baseline,
            },
            WatchAction::Fetch,
        )
    }

    fn sleep(&mut self) -> (r: WatchAction)
        ensures
            final(self)@ == (WatchLoopView { phase: WatchPhase::Sleeping, ..old(self)@ }),
            r@ == WatchActionView::Sleep(old(self).interval_secs),
    {
        self.phase = WatchPhase::Sleeping;
        WatchAction::Sleep { secs: self.interval_secs }
    }

    /// Takes the outcome of the last action and decides the next one.
    pub fn step(&mut self, event: WatchEvent) -> (r: WatchAction)
        ensures
            (final(self)@, r@) == watch_transition(old(self)@, event@),
    {
        match event {
            WatchEvent::Fetched(fetched) => {
                match self.phase {
                    WatchPhase::Baseline => {
                        self.watch = ConfigWatch::start(fetched);
                        self.sleep()
                    },
                    WatchPhase::Polling => {
                        match self.watch.poll(fetched) {
                            Some(content) => {
                                self.phase = WatchPhase::Notifying;
                                WatchAction::Notify { content }
                            },
                            None => self.sleep(),
                        }
                    },
                    _ => self.sleep(),
                }
            },
            WatchEvent::ListenerReturned => {
                if self.phase == WatchPhase::Baseline {
                    WatchAction::Fetch
                } else {
                    self.sleep()
                }
            },
            WatchEvent::SleepEnded => {
                match self.phase {
                    WatchPhase::Baseline => WatchAction::Fetch,
                    WatchPhase::Sleeping => {
                        self.phase = WatchPhase::Polling;
                        WatchAction::Fetch
                    },
                    _ => self.sleep(),
                }
            },
        }
    }
}

/// A failed fetch while polling does not end the loop: it is compared as
/// empty content, and once the listener (if called) returns, the loop sleeps
/// its interval and then fetches again.
pub proof fn lemma_failed_poll_keeps_polling(s: WatchLoopView)
    requires
        s.phase == WatchPhase::Polling,
    ensures
        ({
            let (s1, a1) = watch_transition(s, WatchEventView::Fetched(None));
            let (s2, a2) = watch_transition(s1, WatchEventView::ListenerReturned);
            let slept = if a1 is Notify {
                s2
            } else {
                s1
            };
            &&& s1.prev_digest == md5_hex(Seq::empty())
            &&& a1 is Notify ==> a1 == WatchActionView::Notify(Seq::empty()) && a2 == WatchActionView::Sleep(
                s.interval_secs,
            )
            &&& !(a1 is Notify) ==> a1 == WatchActionView::Sleep(s.interval_secs)
            &&& watch_transition(slept, WatchEventView::SleepEnded) == (
                WatchLoopView { phase: WatchPhase::Polling, ..slept },
                WatchActionView::Fetch,
            )
            &&& slept.prev_digest == md5_hex(Seq::empty())
        }),
{
}

} // verus!
