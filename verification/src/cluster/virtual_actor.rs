use vstd::prelude::*;

use crate::cluster::identity::ClusterIdentity;

verus! {

/// What a virtual actor's host was handed.
pub enum VirtualActorMessage {
    /// No message was present.
    Absent,
    /// The cluster hands the actor its context, for the given identity.
    Init(ClusterIdentity),
    /// A stop or terminate system message.
    Stop,
    /// Any other message, for the actor to handle.
    Other,
}

/// Why a virtual actor's host refused a message.
#[derive(Debug, Clone, Copy, PartialEq, Eq)]
pub enum VirtualActorRefusal {
    /// The init message named another identity.
    IdentityMismatch,
    /// A message came before the init message.
    NotInitialized,
}

/// What the host does with a message.
#[derive(Debug, Clone, Copy, PartialEq, Eq)]
pub enum VirtualActorStep {
    /// Nothing; the receive succeeds.
    Ignore,
    /// Create the actor and activate it, then report how that went.
    Activate,
    /// Hand the message to the actor, creating and activating it first when
    /// `activate_first` holds.
    Handle { activate_first: bool },
    /// Drop the actor, calling its deactivation first when `call_deactivate`
    /// holds, then report how that went.
    Deactivate { call_deactivate: bool },
    /// Fail the receive.
    Refuse(VirtualActorRefusal),
}

/// Whether `message` is the init message for `identity`.
pub open spec fn own_init(message: VirtualActorMessage, identity: (Seq<char>, Seq<char>)) -> bool {
    match message {
        VirtualActorMessage::Init(id) => id@ == identity,
        _ => false,
    }
}

/// The step for `message` in a host for `identity` that is `initialized`
/// (holds its context) and `active` (holds a live actor).
pub open spec fn virtual_actor_step(
    identity: (Seq<char>, Seq<char>),
    initialized: bool,
    active: bool,
    message: VirtualActorMessage,
) -> VirtualActorStep {
    match message {
        VirtualActorMessage::Absent => VirtualActorStep::Ignore,
        VirtualActorMessage::Init(id) => if id@ != identity {
            VirtualActorStep::Refuse(VirtualActorRefusal::IdentityMismatch)
        } else if active {
            VirtualActorStep::Ignore
        } else {
            VirtualActorStep::Activate
        },
        VirtualActorMessage::Stop => VirtualActorStep::Deactivate {
            call_deactivate: active && initialized,
        },
        VirtualActorMessage::Other => if !initialized {
            VirtualActorStep::Refuse(VirtualActorRefusal::NotInitialized)
        } else {
            VirtualActorStep::Handle { activate_first: !active }
        },
    }
}

/// The host of one virtual actor: the identity it serves, whether it holds
/// the actor's context and whether the actor is live.  A live actor always
/// has its context.
pub struct VirtualActorState {
    identity: ClusterIdentity,
    initialized: bool,
    active: bool,
}

impl VirtualActorState {
    /// A live actor has its context.
    #[verifier::type_invariant]
    spec fn wf(&self) -> bool {
        self.active ==> self.initialized
    }

    /// The identity served.
    pub closed spec fn spec_identity(&self) -> (Seq<char>, Seq<char>) {
        self.identity@
    }

    /// Whether the host holds the actor's context.
    pub closed spec fn spec_initialized(&self) -> bool {
        self.initialized
    }

    /// Whether the actor is live.
    pub closed spec fn spec_active(&self) -> bool {
        self.active
    }

    /// A host for `identity`, with no context and no actor.
    pub fn new(identity: ClusterIdentity) -> (r: Self)
        ensures
            r.spec_identity() == identity@,
            !r.spec_initialized(),
            !r.spec_active(),
    {
        VirtualActorState { identity, initialized: false, active: false }
    }

    /// Whether the host holds the actor's context.
    pub fn is_initialized(&self) -> (r: bool)
        ensures
            r == self.spec_initialized(),
    {
        self.initialized
    }

    /// Whether the actor is live.
    pub fn is_active(&self) -> (r: bool)
        ensures
            r == self.spec_active(),
    {
        self.active
    }

    /// Decide what to do with `message`.  An init message for this host's
    /// identity stores the context; a stop with nothing to deactivate drops
    /// the actor at once.
    pub fn receive(&mut self, message: VirtualActorMessage) -> (r: VirtualActorStep)
        ensures
            r == virtual_actor_step(
                old(self).spec_identity(),
                old(self).spec_initialized(),
                old(self).spec_active(),
                message,
            ),
            final(self).spec_identity() == old(self).spec_identity(),
            final(self).spec_initialized() == (old(self).spec_initialized() || (
            message matches VirtualActorMessage::Init(id) && id@ == old(self).spec_identity())),
            final(self).spec_active() == (old(self).spec_active() && !(
            message is Stop && !(r matches VirtualActorStep::Deactivate { call_deactivate: true }))),
            r == VirtualActorStep::Activate <==> !old(self).spec_active() && own_init(
                message,
                old(self).spec_identity(),
            ),
            own_init(message, old(self).spec_identity()) && old(self).spec_active() ==> r
                == VirtualActorStep::Ignore,
            r is Handle ==> message is Other && old(self).spec_initialized(),
    {
        match message {
            VirtualActorMessage::Absent => VirtualActorStep::Ignore,
            VirtualActorMessage::Init(id) => {
                if !(id == self.identity) {
                    VirtualActorStep::Refuse(VirtualActorRefusal::IdentityMismatch)
                } else {
                    self.initialized = true;
                    if self.active {
                        VirtualActorStep::Ignore
                    } else {
                        VirtualActorStep::Activate
                    }
                }
            },
            VirtualActorMessage::Stop => {
                let call_deactivate = self.active && self.initialized;
                if !call_deactivate {
                    self.active = false;
                }
                VirtualActorStep::Deactivate { call_deactivate }
            },
            VirtualActorMessage::Other => {
                if !self.initialized {
                    VirtualActorStep::Refuse(VirtualActorRefusal::NotInitialized)
                } else {
                    VirtualActorStep::Handle { activate_first: !self.active }
                }
            },
        }
    }

    /// Record how creating and activating the actor went: on success the
    /// actor is live; on failure nothing changes.
    pub fn activation_finished(&mut self, succeeded: bool)
        requires
            old(self).spec_initialized(),
        ensures
            final(self).spec_identity() == old(self).spec_identity(),
            final(self).spec_initialized(),
            final(self).spec_active() == (old(self).spec_active() || succeeded),
    {
        if succeeded {
            self.active = true;
        }
    }

    /// Record how deactivating the actor for a stop went: on success the
    /// actor is dropped; on failure it stays.
    pub fn deactivation_finished(&mut self, succeeded: bool)
        ensures
            final(self).spec_identity() == old(self).spec_identity(),
            final(self).spec_initialized() == old(self).spec_initialized(),
            final(self).spec_active() == (old(self).spec_active() && !succeeded),
    {
        if succeeded {
            self.active = false;
        }
    }

    /// The host is stopping: the actor is dropped in any case.  Returns
    /// whether its deactivation is to be called, which happens when it was
    /// live; the context is then kept only if that deactivation fails.
    pub fn post_stop(&mut self) -> (r: bool)
        ensures
            r == old(self).spec_active(),
            final(self).spec_identity() == old(self).spec_identity(),
            final(self).spec_initialized() == old(self).spec_initialized(),
            !final(self).spec_active(),
    {
        let was_active = self.active;
        self.active = false;
        was_active
    }

    /// Record how the deactivation called at stop went: on success the
    /// context is dropped too.
    pub fn post_stop_finished(&mut self, succeeded: bool)
        requires
            !old(self).spec_active(),
        ensures
            final(self).spec_identity() == old(self).spec_identity(),
            final(self).spec_initialized() == (old(self).spec_initialized() && !succeeded),
            !final(self).spec_active(),
    {
        if succeeded {
            self.initialized = false;
        }
    }
}

/// A host hands a message to its actor only after it was given the
/// context for its own identity: handling is never decided for a host that
/// was not initialized, and an init for another identity never initializes.
pub proof fn lemma_handle_needs_init(
    identity: (Seq<char>, Seq<char>),
    initialized: bool,
    active: bool,
    message: VirtualActorMessage,
)
    requires
        active ==> initialized,
    ensures
        virtual_actor_step(identity, initialized, active, message) is Handle ==> initialized,
        message matches VirtualActorMessage::Init(id) && id@ != identity ==> virtual_actor_step(
            identity,
            initialized,
            active,
            message,
        ) == VirtualActorStep::Refuse(VirtualActorRefusal::IdentityMismatch),
{
}

/// A host creates and activates its actor only when it holds none and is
/// handed the init message for its own identity; an init for its own
/// identity while the actor is live creates nothing.  Messages reach the
/// actor only in an initialized host, which first activates an actor when it
/// holds none; a stop calls deactivation exactly for a live actor of an
/// initialized host.
pub proof fn lemma_activation_only_when_idle(
    identity: (Seq<char>, Seq<char>),
    initialized: bool,
    active: bool,
    message: VirtualActorMessage,
)
    ensures
        virtual_actor_step(identity, initialized, active, message) == VirtualActorStep::Activate
            <==> !active && own_init(message, identity),
        active && own_init(message, identity) ==> virtual_actor_step(
            identity,
            initialized,
            active,
            message,
        ) == VirtualActorStep::Ignore,
        virtual_actor_step(identity, initialized, active, message) is Handle ==> message is Other
            && initialized,
        message is Other && initialized ==> virtual_actor_step(identity, initialized, active, message)
            == (VirtualActorStep::Handle { activate_first: !active }),
        message is Stop ==> virtual_actor_step(identity, initialized, active, message) == (
        VirtualActorStep::Deactivate { call_deactivate: active && initialized }),
        message is Absent ==> virtual_actor_step(identity, initialized, active, message)
            == VirtualActorStep::Ignore,
{
}

} // verus!
