//! The capability gate of the video interface.
//!
//! The interface may be brought up once. [`VideoGate`] is the lifecycle state
//! that decides whether a bring-up is still due; [`VideoContext`] and
//! [`Framebuffer`] are tokens without content whose possession stands for a
//! completed bring-up.
//!
//! Every operation that can change the state takes its gate by exclusive
//! reference, so any schedule of callers that share one gate is a sequence of
//! calls, and what is proved of sequences of calls holds of that schedule.

use vstd::prelude::*;

verus! {

/// Why [`VideoContext::init`] did not bring the interface up.
#[derive(Debug, Clone, Copy, PartialEq, Eq, Structural)]
pub enum VideoInitError {
    /// The interface had already left the uninitialized state.
    AlreadyInitialized,
}

/// What a [`VideoGate`] stands for.
pub ghost struct GateState {
    /// Whether the uninitialized state has been left. There is no way back.
    pub initialized: bool,
    /// How often the bring-up routine of the hardware has run.
    pub bring_ups: nat,
}

impl GateState {
    /// The state of a gate that nothing has touched.
    pub open spec fn fresh() -> GateState {
        GateState { initialized: false, bring_ups: 0 }
    }

    /// The only state in which a gate is initialized.
    pub open spec fn ready() -> GateState {
        GateState { initialized: true, bring_ups: 1 }
    }

    /// A gate is either untouched or ready.
    pub open spec fn valid(self) -> bool {
        self == Self::fresh() || self == Self::ready()
    }

    /// What one call of [`VideoContext::init`] answers in this state.
    pub open spec fn init_outcome(self) -> Result<(), VideoInitError> {
        if self.initialized {
            Err(VideoInitError::AlreadyInitialized)
        } else {
            Ok(())
        }
    }

    /// The state that one call of [`VideoContext::init`] leaves behind.
    pub open spec fn after_init(self) -> GateState {
        if self.initialized {
            self
        } else {
            GateState { initialized: true, bring_ups: self.bring_ups + 1 }
        }
    }

    /// The state after `calls` calls of [`VideoContext::init`] or
    /// [`VideoContext::global`] in a row.
    pub open spec fn after_inits(self, calls: nat) -> GateState
        decreases calls,
    {
        if calls == 0 {
            self
        } else {
            self.after_init().after_inits((calls - 1) as nat)
        }
    }
}

/// The lifecycle state of the video interface: one flag, and a count of the
/// runs of the bring-up routine. The two change together, so a gate is either
/// untouched or ready.
pub struct VideoGate {
    is_init: bool,
    bring_ups: u8,
}

impl View for VideoGate {
    type V = GateState;

    closed spec fn view(&self) -> GateState {
        GateState { initialized: self.is_init, bring_ups: self.bring_ups as nat }
    }
}

impl VideoGate {
    /// The bring-up routine has run once if the flag is set, and never if not.
    #[verifier::type_invariant]
    spec fn inv(self) -> bool {
        self.bring_ups == if self.is_init {
            1u8
        } else {
            0u8
        }
    }

    /// A gate in the uninitialized state.
    pub fn new() -> (gate: VideoGate)
        ensures
            gate@ == GateState::fresh(),
    {
        VideoGate { is_init: false, bring_ups: 0 }
    }

    /// Whether the uninitialized state has been left.
    pub fn is_initialized(&self) -> (initialized: bool)
        ensures
            initialized == self@.initialized,
            self@.valid(),
    {
        proof {
            use_type_invariant(self);
        }
        self.is_init
    }

    /// How often the bring-up routine has run.
    pub fn bring_ups(&self) -> (count: u8)
        ensures
            count == self@.bring_ups,
            self@.valid(),
    {
        proof {
            use_type_invariant(self);
        }
        self.bring_ups
    }
}

/// Evidence that the video interface has been brought up.
#[derive(Debug, Clone, Copy, PartialEq, Eq)]
pub struct VideoContext {
    _mark: (),
}

impl VideoContext {
    /// The token. It holds nothing, so there is one value of it.
    pub closed spec fn token() -> VideoContext {
        VideoContext { _mark: () }
    }

    /// The bring-up routine of the video interface, which counts its runs in
    /// `runs`.
    fn init_video(runs: &mut u8) -> (result: Result<(), VideoInitError>)
        requires
            *old(runs) < u8::MAX,
        ensures
            result == Ok::<(), VideoInitError>(()),
            *final(runs) == *old(runs) + 1,
    {
        Framebuffer::init(runs)?;
        Ok(())
    }

    /// Brings the video interface up if that has not happened yet.
    ///
    /// The first call on a gate runs the bring-up routine once, sets the flag
    /// and succeeds. Every later call changes nothing and reports
    /// [`VideoInitError::AlreadyInitialized`].
    pub fn init(gate: &mut VideoGate) -> (result: Result<(), VideoInitError>)
        ensures
            result == old(gate)@.init_outcome(),
            final(gate)@ == old(gate)@.after_init(),
            final(gate)@ == GateState::ready(),
    {
        proof {
            use_type_invariant(&*gate);
        }
        if !gate.is_init {
            let mut runs = gate.bring_ups;
            let result = Self::init_video(&mut runs);
            *gate = VideoGate { is_init: true, bring_ups: runs };
            result
        } else {
            Err(VideoInitError::AlreadyInitialized)
        }
    }

    /// The token of the video interface, bringing the interface up if need be.
    ///
    /// A gate that is already initialized is left as it is.
    pub fn global(gate: &mut VideoGate) -> (context: VideoContext)
        ensures
            context == VideoContext::token(),
            final(gate)@ == old(gate)@.after_init(),
            final(gate)@ == GateState::ready(),
    {
        match Self::init(gate) {
            Err(VideoInitError::AlreadyInitialized) | Ok(_) => {},
        }
        Self::global_unchecked(gate)
    }

    /// The token of the video interface, without a look at the flag.
    ///
    /// That the interface has been brought up is the caller's to know.
    pub fn global_unchecked(gate: &VideoGate) -> (context: VideoContext)
        requires
            gate@.initialized,
        ensures
            context == VideoContext::token(),
    {
        VideoContext { _mark: () }
    }

    /// The token of the framebuffer that any video context stands for.
    pub closed spec fn framebuffer_of(self) -> Framebuffer {
        Framebuffer { _mark: () }
    }

    /// Narrows the token to the framebuffer. The flag is not read again.
    #[inline]
    pub fn frambuffer(self) -> (framebuffer: Framebuffer)
        ensures
            framebuffer == self.framebuffer_of(),
    {
        Framebuffer { _mark: () }
    }
}

/// Evidence that the framebuffer can be used.
#[derive(Debug, Clone, Copy, PartialEq, Eq)]
pub struct Framebuffer {
    _mark: (),
}

impl Framebuffer {
    /// Brings the framebuffer up, as part of the bring-up of the interface, and
    /// counts the run in `runs`.
    fn init(runs: &mut u8) -> (result: Result<(), VideoInitError>)
        requires
            *old(runs) < u8::MAX,
        ensures
            result == Ok::<(), VideoInitError>(()),
            *final(runs) == *old(runs) + 1,
    {
        *runs = *runs + 1;
        Ok(())
    }

    /// The token of the framebuffer, bringing the interface up if need be.
    #[inline]
    pub fn global(gate: &mut VideoGate) -> (framebuffer: Framebuffer)
        ensures
            framebuffer == VideoContext::token().framebuffer_of(),
            final(gate)@ == old(gate)@.after_init(),
            final(gate)@ == GateState::ready(),
    {
        VideoContext::global(gate).frambuffer()
    }
}

/// Initialization succeeds exactly once: on an untouched gate the call that
/// follows `earlier` calls succeeds if it is the first, and reports
/// [`VideoInitError::AlreadyInitialized`] otherwise, however many came before.
pub proof fn lemma_init_succeeds_exactly_once(earlier: nat)
    ensures
        GateState::fresh().after_inits(earlier).init_outcome() == if earlier == 0 {
            Ok::<(), VideoInitError>(())
        } else {
            Err::<(), VideoInitError>(VideoInitError::AlreadyInitialized)
        },
{
    if earlier > 0 {
        lemma_bring_up_runs_once(GateState::fresh(), earlier);
    }
}

/// However often the token is asked for, the bring-up routine runs once: after
/// one or more calls in a row on a gate that is untouched or ready, that gate
/// is ready, with exactly one run of the bring-up routine on record.
pub proof fn lemma_bring_up_runs_once(start: GateState, calls: nat)
    requires
        start.valid(),
        calls >= 1,
    ensures
        start.after_inits(calls) == GateState::ready(),
    decreases calls,
{
    reveal_with_fuel(GateState::after_inits, 2);
    if calls > 1 {
        lemma_bring_up_runs_once(start.after_init(), (calls - 1) as nat);
    }
}

/// A token holds nothing: any two video contexts are the same value, and so
/// are any two framebuffer tokens.
pub proof fn lemma_tokens_hold_nothing(
    first: VideoContext,
    second: VideoContext,
    third: Framebuffer,
    fourth: Framebuffer,
)
    ensures
        first == second,
        first == VideoContext::token(),
        third == fourth,
{
}

/// Narrowing is pure: whatever two video contexts are narrowed, the
/// framebuffer tokens that come out are the same value, good for the same
/// operations.
pub proof fn lemma_frambuffer_is_pure(first: VideoContext, second: VideoContext)
    ensures
        first.framebuffer_of() == second.framebuffer_of(),
{
}

} // verus!
