//! The life of a speech that runs in a process of its own.
//!
//! Nothing here touches a process. Whoever owns the process asks it whether
//! it has exited, hands the answer in, and carries out what comes back: send
//! the termination signal, sleep for some milliseconds, or return a result.
//! The owner keeps one [`Speech`] per process behind one lock, and holds the
//! lock for one call at a time, never while it sleeps.

use vstd::prelude::*;

verus! {

/// `std::io::Error`, carried through as the cause of a failure. Nothing is
/// said about what is inside.
#[verifier::external_type_specification]
#[verifier::external_body]
pub struct ExIoError(std::io::Error);

/// How a process ended.
#[derive(Debug, PartialEq, Eq, Clone, Copy)]
pub struct Exit {
    /// Whether it reported success.
    pub success: bool,
    /// Its exit code, where it has one.
    pub code: Option<i32>,
}

/// What can go wrong with a speech in an external process.
#[derive(Debug)]
pub enum Error {
    /// The process could not be asked whether it has exited.
    CannotAwait { cause: std::io::Error },
    /// The process ended without success, and nobody had asked it to end.
    ExitFailure { status: Exit },
    /// The termination signal could not be sent.
    CannotCancel { cause: std::io::Error },
    /// The process was told to end and was still running when the time
    /// allowed for that was over.
    CancelIgnored,
}

impl Error {
    pub fn cannot_await(cause: std::io::Error) -> (error: Error)
        ensures
            error == (Error::CannotAwait { cause }),
    {
        Error::CannotAwait { cause }
    }

    pub fn exit_failure(status: Exit) -> (error: Error)
        ensures
            error == (Error::ExitFailure { status }),
    {
        Error::ExitFailure { status }
    }

    pub fn cannot_cancel(cause: std::io::Error) -> (error: Error)
        ensures
            error == (Error::CannotCancel { cause }),
    {
        Error::CannotCancel { cause }
    }

    pub fn cancel_ignored() -> (error: Error)
        ensures
            error == Error::CancelIgnored,
    {
        Error::CancelIgnored
    }
}

/// What to do next for a caller that waits for a speech or cancels it.
#[derive(Debug)]
pub enum Action {
    /// Send the termination signal to the process, then ask the process
    /// again, without letting go of the lock in between.
    Signal,
    /// Let go of the lock, sleep that many milliseconds, then ask the
    /// process again.
    Sleep(u64),
    /// Return this to the caller.
    Return(Result<(), Error>),
}

/// Where a speech stands.
#[derive(Debug, PartialEq, Eq, Clone, Copy)]
pub enum State {
    /// The process has not been seen to exit. `signalled` tells whether it
    /// was told to terminate.
    Running { signalled: bool },
    /// The process exited by itself. `reported` tells whether its status
    /// has been returned as a failure, or no longer needs to be.
    Done { status: Exit, reported: bool },
    /// The process was told to terminate and then seen to have exited.
    Cancelled,
}


/// What asking a process whether it has exited gives: its status if it has,
/// `None` if it has not, or why it could not be asked.
pub type Polled = Result<Option<Exit>, std::io::Error>;

/// Milliseconds between two checks of a caller that waits for a speech.
pub const AWAIT_DONE_CHECK_INTERVAL: u64 = 5;

/// A wait of one millisecond, as the slices of a cancellation count it.
pub const SLICE_UNIT: u64 = 1_000_000;

/// The longest slice that is counted.
pub const SLICE_LIMIT: u64 = 0xffff_ffff_0000_0000;

/// How long a cancellation waits for the process to exit, and in which
/// slices.
#[derive(Debug, PartialEq, Eq, Clone, Copy)]
pub struct Backoff {
    /// By how many percent each slice is longer than the one before it.
    /// The slice before the first lasts one millisecond.
    pub growth_percent: u32,
    /// The longest that one slice may last, in milliseconds. No slice is
    /// shorter than one millisecond.
    pub slice_cap_ms: u64,
    /// The longest that all slices together may last, in milliseconds.
    pub ceiling_ms: u64,
}

impl Backoff {
    /// The length of slice `attempt`, before rounding and capping, in
    /// millionths of a millisecond.
    pub open spec fn scaled(self, attempt: nat) -> nat
        decreases attempt,
    {
        if attempt == 0 {
            SLICE_UNIT as nat
        } else {
            let before = self.scaled((attempt - 1) as nat);
            let grown = before + before * self.growth_percent / 100;
            if grown > SLICE_LIMIT {
                SLICE_LIMIT as nat
            } else {
                grown as nat
            }
        }
    }

    /// What `scaled` millionths of a millisecond come to in milliseconds:
    /// rounded to the nearest, at most the cap and at least one.
    pub open spec fn capped(self, scaled: nat) -> nat {
        let rounded = (scaled + SLICE_UNIT / 2) / (SLICE_UNIT as int);
        if rounded > self.slice_cap_ms && self.slice_cap_ms >= 1 {
            self.slice_cap_ms as nat
        } else if rounded > 1 && self.slice_cap_ms >= 1 {
            rounded as nat
        } else {
            1
        }
    }

    /// How many milliseconds slice `attempt` lasts if the ceiling allows.
    /// The first slice is slice 1.
    pub open spec fn slice(self, attempt: nat) -> nat {
        self.capped(self.scaled(attempt))
    }

    /// Slices that are 130 % longer each time, which in milliseconds is 2,
    /// 5, 12, 28, 64, 148, with 300 milliseconds for all of them together
    /// and for each.
    pub fn standard() -> (backoff: Backoff)
        ensures
            backoff == (Backoff { growth_percent: 130, slice_cap_ms: 300, ceiling_ms: 300 }),
    {
        Backoff { growth_percent: 130, slice_cap_ms: 300, ceiling_ms: 300 }
    }

    /// The scaled length of the slice after one of scaled length `before`.
    fn grow(&self, before: u64) -> (grown: u64)
        requires
            before <= SLICE_LIMIT,
        ensures
            grown <= SLICE_LIMIT,
            grown == {
                let grown = before + before * self.growth_percent / 100;
                if grown > SLICE_LIMIT {
                    SLICE_LIMIT as int
                } else {
                    grown
                }
            },
    {
        assert(before * self.growth_percent <= 0xffff_ffff_0000_0000 * 0xffff_ffff)
            by (nonlinear_arith)
            requires
                before <= 0xffff_ffff_0000_0000,
                self.growth_percent <= 0xffff_ffff,
        ;
        let wide: u128 = before as u128 + (before as u128 * self.growth_percent as u128) / 100;
        if wide > SLICE_LIMIT as u128 {
            SLICE_LIMIT
        } else {
            wide as u64
        }
    }

    /// Milliseconds for a slice of scaled length `scaled`.
    fn cap(&self, scaled: u64) -> (ms: u64)
        requires
            scaled <= SLICE_LIMIT,
        ensures
            ms == self.capped(scaled as nat),
            ms >= 1,
    {
        let rounded: u64 = (scaled + SLICE_UNIT / 2) / SLICE_UNIT;
        if rounded > self.slice_cap_ms && self.slice_cap_ms >= 1 {
            self.slice_cap_ms
        } else if rounded > 1 && self.slice_cap_ms >= 1 {
            rounded
        } else {
            1
        }
    }
}

/// How far one call of `cancel` has come, as a value.
pub struct Round {
    /// The slices that the call waits in.
    pub backoff: Backoff,
    /// Whether the call has asked for the termination signal.
    pub sent: bool,
    /// How many slices the call has waited.
    pub attempt: nat,
    /// The milliseconds that the call may still wait, or `None` when it
    /// may not wait again.
    pub remaining: Option<u64>,
    /// The milliseconds that the call has waited.
    pub waited: u64,
}

impl Round {
    /// A call that has not started.
    pub open spec fn start(backoff: Backoff) -> Round {
        Round { backoff, sent: false, attempt: 0, remaining: Some(backoff.ceiling_ms), waited: 0 }
    }

    /// How long the next slice would last if the ceiling allowed.
    pub open spec fn wanted(self) -> nat {
        self.backoff.slice(self.attempt + 1)
    }

    /// How long the call sleeps next: the next slice, or what is left
    /// below the ceiling if that is less.
    pub open spec fn nap(self) -> u64 {
        match self.remaining {
            Some(left) => if self.wanted() >= left {
                left
            } else {
                self.wanted() as u64
            },
            None => 0,
        }
    }

    /// The call after it has slept once more.
    pub open spec fn rested(self) -> Round {
        match self.remaining {
            Some(left) => Round {
                attempt: self.attempt + 1,
                remaining: if self.wanted() >= left {
                    None
                } else {
                    Some((left - self.nap()) as u64)
                },
                waited: (self.waited + self.nap()) as u64,
                ..self
            },
            None => self,
        }
    }
}

/// How far one call of `cancel` has come. Each call has its own.
#[derive(Debug)]
pub struct Cancellation {
    backoff: Backoff,
    sent: bool,
    attempt: u64,
    scaled: u64,
    remaining: Option<u64>,
    waited: u64,
}

impl View for Cancellation {
    type V = Round;

    closed spec fn view(&self) -> Round {
        Round {
            backoff: self.backoff,
            sent: self.sent,
            attempt: self.attempt as nat,
            remaining: self.remaining,
            waited: self.waited,
        }
    }
}

impl Cancellation {
    #[verifier::type_invariant]
    spec fn well_formed(self) -> bool {
        &&& self.scaled == self.backoff.scaled(self.attempt as nat)
        &&& self.scaled <= SLICE_LIMIT
        &&& match self.remaining {
            Some(left) => {
                &&& self.waited + left == self.backoff.ceiling_ms
                &&& self.attempt <= self.waited
                &&& left == 0 ==> self.attempt == 0
            },
            None => self.waited == self.backoff.ceiling_ms,
        }
    }

    /// A call of `cancel` that has not started, with the slices it will
    /// wait in.
    pub fn new(backoff: Backoff) -> (round: Cancellation)
        ensures
            round@ == Round::start(backoff),
    {
        Cancellation {
            backoff,
            sent: false,
            attempt: 0,
            scaled: SLICE_UNIT,
            remaining: Some(backoff.ceiling_ms),
            waited: 0,
        }
    }

    /// The milliseconds that this call has slept so far. They never come
    /// to more than the ceiling.
    pub fn waited(&self) -> (ms: u64)
        ensures
            ms == self@.waited,
            ms <= self@.backoff.ceiling_ms,
    {
        proof {
            use_type_invariant(self);
        }
        self.waited
    }

    /// The milliseconds that this call may still sleep.
    pub fn remaining(&self) -> (left: Option<u64>)
        ensures
            left == self@.remaining,
            left matches Some(ms) ==> self@.waited + ms == self@.backoff.ceiling_ms,
            left is None ==> self@.waited == self@.backoff.ceiling_ms,
    {
        proof {
            use_type_invariant(self);
        }
        self.remaining
    }

    /// Notes that the termination signal was asked for.
    fn mark_sent(&mut self)
        ensures
            final(self)@ == (Round { sent: true, ..old(self)@ }),
    {
        proof {
            use_type_invariant(&*self);
        }
        self.sent = true;
    }

    /// The length of the next sleep, if the call may sleep again.
    fn rest(&mut self) -> (nap: Option<u64>)
        ensures
            final(self)@ == old(self)@.rested(),
            nap == match old(self)@.remaining {
                Some(_) => Some(old(self)@.nap()),
                None => None,
            },
    {
        proof {
            use_type_invariant(&*self);
        }
        match self.remaining {
            None => None,
            Some(left) => {
                let scaled = self.backoff.grow(self.scaled);
                let wanted = self.backoff.cap(scaled);
                let nap = if wanted >= left {
                    left
                } else {
                    wanted
                };
                *self = Cancellation {
                    backoff: self.backoff,
                    sent: self.sent,
                    attempt: self.attempt + 1,
                    scaled,
                    remaining: if wanted >= left {
                        None
                    } else {
                        Some(left - nap)
                    },
                    waited: self.waited + nap,
                };
                Some(nap)
            },
        }
    }
}

impl State {
    /// Whether the process has been seen to exit.
    pub open spec fn is_terminal(self) -> bool {
        !(self is Running)
    }

    /// Whether the speech is over and nothing is left to report.
    pub open spec fn is_settled(self) -> bool {
        match self {
            State::Running { .. } => false,
            State::Done { status, reported } => status.success || reported,
            State::Cancelled => true,
        }
    }

    /// The state once the process was seen to have exited with `status`:
    /// cancelled if it had been told to terminate, done if not.
    pub open spec fn closed(self, status: Exit) -> State {
        match self {
            State::Running { signalled: true } => State::Cancelled,
            State::Running { signalled: false } => State::Done { status, reported: false },
            _ => self,
        }
    }

    /// The state once `polled` is known. Only a running speech changes.
    pub open spec fn updated(self, polled: Polled) -> State {
        match polled {
            Ok(Some(status)) => self.closed(status),
            _ => self,
        }
    }

    /// What `exited_successfully` answers: a failure is returned once.
    pub open spec fn answer(self) -> Result<bool, Error> {
        match self {
            State::Running { .. } => Ok(false),
            State::Done { status, reported } => if status.success || reported {
                Ok(true)
            } else {
                Err(Error::ExitFailure { status })
            },
            State::Cancelled => Ok(true),
        }
    }

    /// The state once a failure has been returned, or no longer needs to
    /// be: the same, but for a failure that was still to be reported.
    pub open spec fn answered(self) -> State {
        match self {
            State::Done { status, reported: false } if !status.success => State::Done {
                status,
                reported: true,
            },
            _ => self,
        }
    }

    /// What `is_done` answers when the process gave `polled`.
    pub open spec fn observation(self, polled: Polled) -> Result<bool, Error> {
        match (self, polled) {
            (State::Running { .. }, Err(cause)) => Err(Error::CannotAwait { cause }),
            _ => self.updated(polled).answer(),
        }
    }

    /// The state after `is_done` when the process gave `polled`.
    pub open spec fn observed(self, polled: Polled) -> State {
        match (self, polled) {
            (State::Running { .. }, Err(_)) => self,
            _ => self.updated(polled).answered(),
        }
    }

    /// What a caller that waits does after an `is_done` that gave `answer`.
    pub open spec fn await_action(answer: Result<bool, Error>) -> Action {
        match answer {
            Ok(true) => Action::Return(Ok(())),
            Ok(false) => Action::Sleep(AWAIT_DONE_CHECK_INTERVAL),
            Err(error) => Action::Return(Err(error)),
        }
    }

    /// What one step of `cancel` tells the caller to do.
    ///
    /// A speech that is over needs nothing. Of a running one the first
    /// step asks for the signal; each later step finds the process gone,
    /// or sleeps for the next slice, or gives up when no slice is left.
    pub open spec fn cancel_action(self, round: Round, polled: Polled) -> Action {
        match (self, polled) {
            (State::Running { .. }, Err(cause)) => Action::Return(
                Err(Error::CannotAwait { cause }),
            ),
            (State::Running { .. }, Ok(Some(_))) => Action::Return(Ok(())),
            (State::Running { .. }, Ok(None)) => if !round.sent {
                Action::Signal
            } else if round.remaining is Some {
                Action::Sleep(round.nap())
            } else {
                Action::Return(Err(Error::CancelIgnored))
            },
            _ => Action::Return(Ok(())),
        }
    }

    /// The state after one step of `cancel`.
    pub open spec fn cancel_state(self, polled: Polled) -> State {
        match (self, polled) {
            (State::Running { .. }, Err(_)) => self,
            (State::Running { .. }, Ok(Some(_))) => State::Cancelled,
            (State::Running { .. }, Ok(None)) => State::Running { signalled: true },
            _ => self.answered(),
        }
    }

    /// The round after one step of `cancel`.
    pub open spec fn cancel_round(self, round: Round, polled: Polled) -> Round {
        match (self, polled) {
            (State::Running { .. }, Ok(None)) => if !round.sent {
                Round { sent: true, ..round }
            } else {
                round.rested()
            },
            _ => round,
        }
    }

    /// The state of a speech whose process gave `polled` right after it
    /// was started.
    pub fn new(polled: Polled) -> (state: State)
        ensures
            state == (State::Running { signalled: false }).updated(polled),
    {
        let mut state = State::Running { signalled: false };
        match polled {
            Ok(Some(status)) => state.close(status),
            _ => {},
        }
        state
    }

    /// Notes that the process has exited with `status`.
    pub fn close(&mut self, status: Exit)
        ensures
            *final(self) == old(self).closed(status),
    {
        match *self {
            State::Running { signalled: true } => {
                *self = State::Cancelled;
            },
            State::Running { signalled: false } => {
                *self = State::Done { status, reported: false };
            },
            _ => {},
        }
    }

    /// Takes in what the process gave. Nothing that a process gives
    /// changes a speech that is over.
    pub fn update(&mut self, polled: Polled) -> (result: Result<(), Error>)
        ensures
            result == match (*old(self), polled) {
                (State::Running { .. }, Err(cause)) => Err::<(), Error>(
                    Error::CannotAwait { cause },
                ),
                _ => Ok(()),
            },
            *final(self) == old(self).updated(polled),
    {
        match *self {
            State::Running { .. } => match polled {
                Ok(Some(status)) => {
                    self.close(status);
                    Ok(())
                },
                Ok(None) => Ok(()),
                Err(cause) => Err(Error::cannot_await(cause)),
            },
            _ => Ok(()),
        }
    }

    /// Whether the speech is over. An exit without success that nobody
    /// asked for is an error, returned by the first call that finds it.
    pub fn exited_successfully(&mut self) -> (result: Result<bool, Error>)
        ensures
            result == old(self).answer(),
            *final(self) == old(self).answered(),
    {
        match *self {
            State::Running { .. } => Ok(false),
            State::Done { status, reported } => {
                if status.success || reported {
                    Ok(true)
                } else {
                    *self = State::Done { status, reported: true };
                    Err(Error::exit_failure(status))
                }
            },
            State::Cancelled => Ok(true),
        }
    }

    /// Whether the speech is over, for a process that gave `polled`.
    ///
    /// Over is a speech whose process exited with success, or was told to
    /// terminate and exited. An exit without success that nobody asked for
    /// is an error once, and the speech is over from then on.
    pub fn is_done(&mut self, polled: Polled) -> (result: Result<bool, Error>)
        ensures
            result == old(self).observation(polled),
            *final(self) == old(self).observed(polled),
    {
        match self.update(polled) {
            Ok(()) => self.exited_successfully(),
            Err(error) => Err(error),
        }
    }

    /// One check of a caller that waits for the speech, for a process that
    /// gave `polled`: return once the speech is over or an error shows,
    /// sleep and check again until then.
    pub fn await_done(&mut self, polled: Polled) -> (action: Action)
        ensures
            action == State::await_action(old(self).observation(polled)),
            *final(self) == old(self).observed(polled),
    {
        Action::after_is_done(self.is_done(polled))
    }

    /// One step of a cancellation, for a process that gave `polled`.
    pub fn cancel(&mut self, round: &mut Cancellation, polled: Polled) -> (action: Action)
        ensures
            action == old(self).cancel_action(old(round)@, polled),
            *final(self) == old(self).cancel_state(polled),
            final(round)@ == old(self).cancel_round(old(round)@, polled),
    {
        match *self {
            State::Running { .. } => match polled {
                Err(cause) => Action::Return(Err(Error::cannot_await(cause))),
                Ok(Some(_)) => {
                    *self = State::Cancelled;
                    Action::Return(Ok(()))
                },
                Ok(None) => {
                    *self = State::Running { signalled: true };
                    if !round.sent {
                        round.mark_sent();
                        Action::Signal
                    } else {
                        match round.rest() {
                            Some(nap) => Action::Sleep(nap),
                            None => Action::Return(Err(Error::cancel_ignored())),
                        }
                    }
                },
            },
            State::Done { status, reported } => {
                if !status.success && !reported {
                    *self = State::Done { status, reported: true };
                }
                Action::Return(Ok(()))
            },
            State::Cancelled => Action::Return(Ok(())),
        }
    }
}


/// A speech in an external process, as the handle of that process keeps it.
///
/// Its state changes only through the calls below, so a speech that is over
/// stays over.
#[derive(Debug)]
pub struct Speech {
    state: State,
}

impl View for Speech {
    type V = State;

    closed spec fn view(&self) -> State {
        self.state
    }
}

impl Speech {
    /// The speech of a process that was just started and gave `polled`
    /// when it was asked for the first time.
    pub fn new(polled: Polled) -> (speech: Speech)
        ensures
            speech@ == (State::Running { signalled: false }).updated(polled),
    {
        Speech { state: State::new(polled) }
    }

    /// Where the speech stands.
    pub fn state(&self) -> (state: State)
        ensures
            state == self@,
    {
        self.state
    }

    /// What `is_done` answers for a caller that found the lock taken: that
    /// the speech is not known to be over. Such a caller does not wait for
    /// the lock, and nothing changes.
    pub fn is_done_contended() -> (result: Result<bool, Error>)
        ensures
            result == Ok::<bool, Error>(false),
    {
        Ok(false)
    }

    /// Whether the speech is over, for a process that gave `polled`.
    pub fn is_done(&mut self, polled: Polled) -> (result: Result<bool, Error>)
        ensures
            result == old(self)@.observation(polled),
            final(self)@ == old(self)@.observed(polled),
    {
        self.state.is_done(polled)
    }

    /// One check of a caller that waits for the speech to be over.
    pub fn await_done(&mut self, polled: Polled) -> (action: Action)
        ensures
            action == State::await_action(old(self)@.observation(polled)),
            final(self)@ == old(self)@.observed(polled),
    {
        self.state.await_done(polled)
    }

    /// One step of a caller that cancels the speech. The caller makes one
    /// `Cancellation` per call of its own, and hands in at each step what
    /// the process gave just before.
    pub fn cancel(&mut self, round: &mut Cancellation, polled: Polled) -> (action: Action)
        ensures
            action == old(self)@.cancel_action(old(round)@, polled),
            final(self)@ == old(self)@.cancel_state(polled),
            final(round)@ == old(self)@.cancel_round(old(round)@, polled),
    {
        self.state.cancel(round, polled)
    }
}

impl Action {
    /// What a caller that waits for a speech does after an `is_done` that
    /// gave `answer`: return once the speech is over or an error shows,
    /// sleep and check again until then.
    pub fn after_is_done(answer: Result<bool, Error>) -> (action: Action)
        ensures
            action == State::await_action(answer),
    {
        match answer {
            Ok(true) => Action::Return(Ok(())),
            Ok(false) => Action::Sleep(AWAIT_DONE_CHECK_INTERVAL),
            Err(error) => Action::Return(Err(error)),
        }
    }

    /// What a caller that cancels a speech does when the termination
    /// signal could not be sent: return that, and try no further.
    pub fn signal_failed(cause: std::io::Error) -> (action: Action)
        ensures
            action == Action::Return(Err(Error::CannotCancel { cause })),
    {
        Action::Return(Err(Error::cannot_cancel(cause)))
    }
}

/// One call on a speech, with what the process gave when the call asked it.
pub enum Call {
    /// `is_done`, or one check of `await_done`.
    IsDone(Polled),
    /// One step of `cancel`, with how far that call of `cancel` had come.
    Cancel(Round, Polled),
}

impl State {
    /// The state after `call`.
    pub open spec fn after(self, call: Call) -> State {
        match call {
            Call::IsDone(polled) => self.observed(polled),
            Call::Cancel(_, polled) => self.cancel_state(polled),
        }
    }

    /// The state after all of `calls`, one after the other, whoever made
    /// them.
    pub open spec fn after_all(self, calls: Seq<Call>) -> State
        decreases calls.len(),
    {
        if calls.len() == 0 {
            self
        } else {
            self.after(calls[0]).after_all(calls.drop_first())
        }
    }

    /// Whether `call` is answered with the failure of the process.
    pub open spec fn shows_failure(self, call: Call) -> bool {
        match call {
            Call::IsDone(polled) => self.observation(polled) matches Err(
                Error::ExitFailure { .. },
            ),
            Call::Cancel(round, polled) => self.cancel_action(round, polled) matches Action::Return(
                Err(Error::ExitFailure { .. }),
            ),
        }
    }

    /// How many of `calls` are answered with the failure of the process.
    pub open spec fn failures_shown(self, calls: Seq<Call>) -> nat
        decreases calls.len(),
    {
        if calls.len() == 0 {
            0
        } else {
            let first: nat = if self.shows_failure(calls[0]) {
                1
            } else {
                0
            };
            first + self.after(calls[0]).failures_shown(calls.drop_first())
        }
    }
}

/// A speech that is over stays over: whatever is called on it and whatever
/// the process gives, a done speech stays done with the status it had, and
/// a cancelled one stays cancelled.
pub proof fn lemma_over_stays_over(state: State, calls: Seq<Call>)
    requires
        state.is_terminal(),
    ensures
        state.after_all(calls).is_terminal(),
        state is Cancelled <==> state.after_all(calls) is Cancelled,
        state matches State::Done { status, .. } ==> state.after_all(calls) matches State::Done {
            status: kept,
            ..
        } && kept == status,
    decreases calls.len(),
{
    if calls.len() > 0 {
        lemma_over_stays_over(state.after(calls[0]), calls.drop_first());
    }
}

/// Once nothing is left to report, every `is_done` answers `true`, every
/// step of `cancel` returns success without a signal or a sleep, and
/// neither changes anything.
pub proof fn lemma_settled_is_quiet(state: State, round: Round, polled: Polled)
    requires
        state.is_settled(),
    ensures
        state.observation(polled) == Ok::<bool, Error>(true),
        state.observed(polled) == state,
        state.cancel_action(round, polled) == Action::Return(Ok(())),
        state.cancel_state(polled) == state,
        state.cancel_round(round, polled) == round,
{
}

/// The failure of a process is returned at most once, whatever is called
/// and in whatever order.
pub proof fn lemma_failure_shown_once(state: State, calls: Seq<Call>)
    ensures
        state.failures_shown(calls) <= 1,
        state.is_settled() ==> state.failures_shown(calls) == 0,
    decreases calls.len(),
{
    if calls.len() > 0 {
        let next = state.after(calls[0]);
        lemma_failure_shown_once(next, calls.drop_first());
        if state.shows_failure(calls[0]) {
            assert(next.is_settled());
        }
        if state.is_settled() {
            assert(next.is_settled());
        }
    }
}

/// The call that finds a process gone without success, when nobody asked
/// it to go, returns that failure; every call after it finds the speech
/// over.
pub proof fn lemma_failure_then_over(signalled: bool, status: Exit, later: Polled)
    requires
        !status.success,
        !signalled,
    ensures
        ({
            let state = State::Running { signalled };
            let polled: Polled = Ok(Some(status));
            &&& state.observation(polled) == Err::<bool, Error>(Error::ExitFailure { status })
            &&& state.observed(polled).is_settled()
            &&& state.observed(polled).observation(later) == Ok::<bool, Error>(true)
        }),
{
}

/// A process that exits with success makes `is_done` answer `true`, and
/// again `true` on every later call.
pub proof fn lemma_success_is_done(signalled: bool, status: Exit, later: Polled)
    requires
        status.success,
    ensures
        ({
            let state = State::Running { signalled };
            let polled: Polled = Ok(Some(status));
            &&& state.observation(polled) == Ok::<bool, Error>(true)
            &&& state.observed(polled).is_settled()
            &&& state.observed(polled).observation(later) == Ok::<bool, Error>(true)
            &&& state.observed(polled).observed(later) == state.observed(polled)
        }),
{
}

/// Cancelling a speech that is over succeeds at once, whether it ended by
/// itself, with success or without, or was cancelled before.
pub proof fn lemma_cancel_when_over(state: State, round: Round, polled: Polled)
    requires
        state.is_terminal(),
    ensures
        state.cancel_action(round, polled) == Action::Return(Ok(())),
        state.cancel_round(round, polled) == round,
        state.cancel_state(polled).is_settled(),
{
}

/// After a `cancel` that returned success, nothing is left to report: a
/// second `cancel` succeeds at once and `is_done` answers `true`.
pub proof fn lemma_cancel_twice(
    state: State,
    round: Round,
    polled: Polled,
    second: Round,
    later: Polled,
)
    requires
        state.cancel_action(round, polled) == Action::Return(Ok(())),
    ensures
        ({
            let cancelled = state.cancel_state(polled);
            &&& cancelled.is_settled()
            &&& cancelled.cancel_action(second, later) == Action::Return(Ok(()))
            &&& cancelled.observation(later) == Ok::<bool, Error>(true)
        }),
{
}


impl Round {
    /// Whether what the call has waited and what it may still wait make up
    /// the ceiling.
    pub open spec fn in_budget(self) -> bool {
        match self.remaining {
            Some(left) => self.waited + left == self.backoff.ceiling_ms,
            None => self.waited == self.backoff.ceiling_ms,
        }
    }
}

/// The scaled length of a slice is never below one millisecond and never
/// above the limit.
pub proof fn lemma_scaled_bounds(backoff: Backoff, attempt: nat)
    ensures
        SLICE_UNIT <= backoff.scaled(attempt) <= SLICE_LIMIT,
    decreases attempt,
{
    if attempt > 0 {
        lemma_scaled_bounds(backoff, (attempt - 1) as nat);
        let before = backoff.scaled((attempt - 1) as nat);
        assert(before * backoff.growth_percent >= 0) by (nonlinear_arith)
            requires
                before >= 0,
                backoff.growth_percent >= 0,
        ;
    }
}

/// No slice is shorter than the one before it, and none is shorter than a
/// millisecond or longer than a cap of a millisecond or more.
pub proof fn lemma_slices_grow(backoff: Backoff, attempt: nat)
    ensures
        backoff.slice(attempt) <= backoff.slice(attempt + 1),
        backoff.slice(attempt) >= 1,
        backoff.slice_cap_ms >= 1 ==> backoff.slice(attempt) <= backoff.slice_cap_ms,
{
    lemma_scaled_bounds(backoff, attempt);
    let before = backoff.scaled(attempt);
    assert(before * backoff.growth_percent >= 0) by (nonlinear_arith)
        requires
            before >= 0,
            backoff.growth_percent >= 0,
    ;
    assert(backoff.scaled(attempt + 1) >= before);
}

/// A cancellation never sleeps longer than its ceiling, all sleeps taken
/// together: what it has waited grows by each sleep and by nothing else,
/// and stays within the ceiling. Every sleep but its last lasts at least a
/// millisecond, so it does not check without pause.
pub proof fn lemma_cancel_keeps_ceiling(state: State, round: Round, polled: Polled)
    requires
        round.in_budget(),
    ensures
        Round::start(round.backoff).in_budget(),
        round.waited <= round.backoff.ceiling_ms,
        ({
            let next = state.cancel_round(round, polled);
            &&& next.in_budget()
            &&& next.backoff == round.backoff
            &&& match state.cancel_action(round, polled) {
                Action::Sleep(ms) => {
                    &&& next.waited == round.waited + ms
                    &&& next.attempt == round.attempt + 1
                    &&& ms <= round.backoff.slice(next.attempt)
                    &&& ms >= 1 || next.remaining is None
                },
                _ => next.waited == round.waited && next.attempt == round.attempt,
            }
        }),
{
    lemma_slices_grow(round.backoff, round.attempt + 1);
}

} // verus!
