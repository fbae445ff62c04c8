//! Hardware semaphores: the lock between cores.
//!
//! Each of the sixteen semaphores is a slot with a command register and a status register. A lock
//! command takes the slot if it is idle and is ignored if it is not; the status names the core that
//! holds it. The hardware knows cores, not contexts: it also ignores a lock command of the core
//! that already holds the slot, so a lock is not reentrant, and an interrupt handler must not
//! contend for a slot that its own core can hold.
//!
//! A bare lock implies no memory barrier. [`Acquire`] and [`release_steps`] have the barriers that
//! guard data in memory.

use vstd::prelude::*;

use std::marker::PhantomData;

verus! {

/// Number of semaphores.
pub const COUNT: usize = 16;

/// The semaphore that a critical section across cores uses, where there is one.
pub const RESERVED_CS_ID: usize = 15;

/// The command that releases a slot.
pub const REQ_UNLOCK: u32 = 0;

/// The command that takes a slot.
pub const REQ_LOCK: u32 = 1;

/// One operation on a semaphore or on memory order. The comment on each names the [`SphReply`]
/// that answers it.
#[derive(Clone, Copy, Debug, PartialEq, Eq, Structural)]
pub enum SphAction {
    /// Read the status of slot `n`: [`SphReply::Status`].
    ReadStatus { n: usize },
    /// Write the command register of slot `n`: [`SphReply::Done`].
    Command { n: usize, value: u32 },
    /// Keep the compiler from moving accesses over this point: [`SphReply::Done`].
    CompilerFence,
    /// Order the memory accesses before against those after: [`SphReply::Done`].
    Barrier,
}

/// The answer to a [`SphAction`].
#[derive(Clone, Copy, Debug, PartialEq, Eq, Structural)]
pub enum SphReply {
    Status { state: u8, owner: u8 },
    Done,
}

/// The core that a status names, or `None` for an idle slot.
pub open spec fn holder(state: u8, owner: u8) -> Option<u8> {
    if state == 0 {
        None
    } else {
        Some(owner)
    }
}

/// Where an attempt to take a slot stands.
#[derive(Clone, Copy, Debug, PartialEq, Eq, Structural)]
pub enum LockPhase {
    /// The slot's owner has yet to be read, to see that it is not this core.
    Owner,
    /// The lock command has yet to be given.
    Request,
    /// The status has yet to be read, to see who won.
    Check,
    /// Whether this core took the slot.
    Finished(bool),
    /// This core held the slot already.
    Reentrant,
}

/// An attempt of core `me` to take slot `n`, which goes on until it succeeds if `spin` is set.
#[derive(Clone, Copy, Debug, PartialEq, Eq, Structural)]
pub struct SphLock {
    pub n: usize,
    pub me: u8,
    pub spin: bool,
    pub phase: LockPhase,
}

impl SphLock {
    pub open spec fn starting(n: usize, me: u8, spin: bool) -> SphLock {
        SphLock { n, me, spin, phase: LockPhase::Owner }
    }

    pub open spec fn at(self, phase: LockPhase) -> SphLock {
        SphLock { phase, ..self }
    }

    pub open spec fn wants(self) -> Option<SphAction> {
        match self.phase {
            LockPhase::Owner | LockPhase::Check => Some(SphAction::ReadStatus { n: self.n }),
            LockPhase::Request => Some(SphAction::Command { n: self.n, value: REQ_LOCK }),
            LockPhase::Finished(_) | LockPhase::Reentrant => None,
        }
    }

    pub open spec fn next(self, reply: SphReply) -> SphLock {
        match (self.phase, reply) {
            (LockPhase::Owner, SphReply::Status { state, owner }) => if holder(state, owner)
                != Some(self.me) {
                self.at(LockPhase::Request)
            } else if self.spin {
                self.at(LockPhase::Reentrant)
            } else {
                self.at(LockPhase::Finished(false))
            },
            (LockPhase::Request, SphReply::Done) => self.at(LockPhase::Check),
            (LockPhase::Check, SphReply::Status { owner, .. }) => if owner == self.me {
                self.at(LockPhase::Finished(true))
            } else if self.spin {
                self.at(LockPhase::Request)
            } else {
                self.at(LockPhase::Finished(false))
            },
            _ => self,
        }
    }

    pub fn action(&self) -> (a: Option<SphAction>)
        ensures
            a == self.wants(),
    {
        match self.phase {
            LockPhase::Owner | LockPhase::Check => Some(SphAction::ReadStatus { n: self.n }),
            LockPhase::Request => Some(SphAction::Command { n: self.n, value: REQ_LOCK }),
            LockPhase::Finished(_) | LockPhase::Reentrant => None,
        }
    }

    pub fn step(self, reply: SphReply) -> (r: SphLock)
        ensures
            r == self.next(reply),
    {
        let phase = match (self.phase, reply) {
            (LockPhase::Owner, SphReply::Status { state, owner }) => {
                let mine = match raw_owner(state, owner) {
                    Some(pid) => pid == self.me,
                    None => false,
                };
                if !mine {
                    LockPhase::Request
                } else if self.spin {
                    LockPhase::Reentrant
                } else {
                    LockPhase::Finished(false)
                }
            },
            (LockPhase::Request, SphReply::Done) => LockPhase::Check,
            (LockPhase::Check, SphReply::Status { owner, .. }) => if owner == self.me {
                LockPhase::Finished(true)
            } else if self.spin {
                LockPhase::Request
            } else {
                LockPhase::Finished(false)
            },
            _ => self.phase,
        };
        SphLock { phase, ..self }
    }
}

/// The core that a status names, or `None` for an idle slot.
pub fn raw_owner(state: u8, owner: u8) -> (r: Option<u8>)
    ensures
        r == holder(state, owner),
{
    if state == 0 {
        None
    } else {
        Some(owner)
    }
}

/// Where taking a slot for data in memory stands.
#[derive(Clone, Copy, Debug, PartialEq, Eq, Structural)]
pub enum AcquirePhase {
    Locking(SphLock),
    /// The slot is taken, and the accesses that it guards have yet to be ordered after that.
    Fencing,
    /// The data may be used.
    Held,
    /// Another core, or this one, held the slot.
    Refused,
    /// This core held the slot already: a wait for it would never end.
    Reentrant,
}

/// Where core `me` stands with taking slot `n` for data in memory.
#[derive(Clone, Copy, Debug, PartialEq, Eq, Structural)]
pub struct Acquiring {
    pub n: usize,
    pub me: u8,
    pub phase: AcquirePhase,
}

impl Acquiring {
    pub open spec fn starting(n: usize, me: u8, spin: bool) -> Acquiring {
        Acquiring { n, me, phase: AcquirePhase::Locking(SphLock::starting(n, me, spin)) }
    }

    pub open spec fn at(self, phase: AcquirePhase) -> Acquiring {
        Acquiring { phase, ..self }
    }

    pub open spec fn wants(self) -> Option<SphAction> {
        match self.phase {
            AcquirePhase::Locking(l) => l.wants(),
            AcquirePhase::Fencing => Some(SphAction::Barrier),
            AcquirePhase::Held | AcquirePhase::Refused | AcquirePhase::Reentrant => None,
        }
    }

    pub open spec fn next(self, reply: SphReply) -> Acquiring {
        match (self.phase, reply) {
            (AcquirePhase::Locking(l), _) => match l.next(reply).phase {
                LockPhase::Finished(true) => self.at(AcquirePhase::Fencing),
                LockPhase::Finished(false) => self.at(AcquirePhase::Refused),
                LockPhase::Reentrant => self.at(AcquirePhase::Reentrant),
                _ => self.at(AcquirePhase::Locking(l.next(reply))),
            },
            (AcquirePhase::Fencing, SphReply::Done) => self.at(AcquirePhase::Held),
            _ => self,
        }
    }
}

/// Taking a slot for data in memory. Only a handle or a mutex starts one, and what it comes to can
/// be used once.
#[derive(Debug)]
pub struct Acquire {
    state: Acquiring,
}

impl Acquire {
    /// Where it stands.
    pub closed spec fn at(self) -> Acquiring {
        self.state
    }

    pub(crate) fn start(n: usize, me: u8, spin: bool) -> (a: Acquire)
        ensures
            a.at() == Acquiring::starting(n, me, spin),
    {
        let lock = SphLock { n, me, spin, phase: LockPhase::Owner };
        Acquire { state: Acquiring { n, me, phase: AcquirePhase::Locking(lock) } }
    }

    /// The slot.
    pub fn slot(&self) -> (n: usize)
        ensures
            n == self.at().n,
    {
        self.state.n
    }

    /// How far it has come.
    pub fn phase(&self) -> (p: AcquirePhase)
        ensures
            p == self.at().phase,
    {
        self.state.phase
    }

    /// What to do next, or `None` once it is over.
    pub fn action(&self) -> (a: Option<SphAction>)
        ensures
            a == self.at().wants(),
    {
        match self.state.phase {
            AcquirePhase::Locking(l) => l.action(),
            AcquirePhase::Fencing => Some(SphAction::Barrier),
            AcquirePhase::Held | AcquirePhase::Refused | AcquirePhase::Reentrant => None,
        }
    }

    /// Takes the reply to the last action.
    pub fn step(self, reply: SphReply) -> (r: Acquire)
        ensures
            r.at() == self.at().next(reply),
    {
        let phase = match (self.state.phase, reply) {
            (AcquirePhase::Locking(l), _) => {
                let l2 = l.step(reply);
                match l2.phase {
                    LockPhase::Finished(true) => AcquirePhase::Fencing,
                    LockPhase::Finished(false) => AcquirePhase::Refused,
                    LockPhase::Reentrant => AcquirePhase::Reentrant,
                    _ => AcquirePhase::Locking(l2),
                }
            },
            (AcquirePhase::Fencing, SphReply::Done) => AcquirePhase::Held,
            _ => self.state.phase,
        };
        Acquire { state: Acquiring { phase, ..self.state } }
    }
}

/// What releases slot `n` after data in memory was used: the stores are made visible first.
pub fn release_steps(n: usize) -> (r: [SphAction; 3])
    ensures
        r@ == seq![
            SphAction::CompilerFence,
            SphAction::Barrier,
            SphAction::Command { n, value: REQ_UNLOCK },
        ],
{
    let r = [
        SphAction::CompilerFence,
        SphAction::Barrier,
        SphAction::Command { n, value: REQ_UNLOCK },
    ];
    assert(r@ =~= seq![
        SphAction::CompilerFence,
        SphAction::Barrier,
        SphAction::Command { n, value: REQ_UNLOCK },
    ]);
    r
}

/// A handle to semaphore `N`. Any number of handles may exist: the hardware excludes, not the
/// handle. `N` is below [`COUNT`], and is not [`RESERVED_CS_ID`] where that slot is in use.
#[derive(Clone, Copy, Debug)]
pub struct Sph<const N: usize> {
    token: PhantomData<()>,
}

impl<const N: usize> Sph<N> {
    /// The semaphore that the handle names.
    pub open spec fn index(self) -> usize {
        N
    }

    /// A handle to semaphore `N`.
    pub fn new() -> (s: Sph<N>)
        requires
            N < COUNT,
        ensures
            s.index() == N,
            s.index() < COUNT,
    {
        Sph { token: PhantomData }
    }

    /// Starts an attempt of core `me` to take the slot, which fails if another core holds it, or
    /// this one.
    pub fn try_lock(self, me: u8) -> (l: SphLock)
        ensures
            l == SphLock::starting(N, me, false),
    {
        SphLock { n: N, me, spin: false, phase: LockPhase::Owner }
    }

    /// Starts to wait for the slot. A core that holds it already would wait for ever: that is
    /// reported as [`LockPhase::Reentrant`].
    pub fn lock(self, me: u8) -> (l: SphLock)
        ensures
            l == SphLock::starting(N, me, true),
    {
        SphLock { n: N, me, spin: true, phase: LockPhase::Owner }
    }

    /// What releases the slot, without a barrier. It means something only if this core holds it.
    pub fn unlock(self) -> (a: SphAction)
        ensures
            a == (SphAction::Command { n: N, value: REQ_UNLOCK }),
    {
        SphAction::Command { n: N, value: REQ_UNLOCK }
    }

    /// Starts a section that only one core can be in. Once the slot is
    /// [`AcquirePhase::Held`] the section may run; [`release_steps`] end it.
    pub fn with(self, me: u8) -> (a: Acquire)
        ensures
            a.at() == Acquiring::starting(N, me, true),
    {
        Acquire::start(N, me, true)
    }

    /// The raw id of the core that holds the slot, given its status.
    pub fn owner(self, state: u8, owner: u8) -> (r: Option<u8>)
        ensures
            r == holder(state, owner),
    {
        raw_owner(state, owner)
    }
}

/// What a lock command of core `by` makes of a slot.
pub open spec fn locked(slot: Option<u8>, by: u8) -> Option<u8> {
    if slot is None {
        Some(by)
    } else {
        slot
    }
}

/// What an unlock command of core `by` makes of a slot.
pub open spec fn unlocked(slot: Option<u8>, by: u8) -> Option<u8> {
    if slot == Some(by) {
        None
    } else {
        slot
    }
}

/// What the status of a slot reads as. Id 0 is not that of an application core.
pub open spec fn status(slot: Option<u8>) -> SphReply {
    match slot {
        Some(by) => SphReply::Status { state: 1, owner: by },
        None => SphReply::Status { state: 0, owner: 0 },
    }
}

/// A slot and the cores that use it: for each of them the attempt that it last made, and whether
/// it has taken the slot and not released it.
pub struct Contenders {
    pub slot: Option<u8>,
    pub attempt: Map<u8, SphLock>,
    pub inside: Set<u8>,
}

/// What a core does next.
pub enum Move {
    /// Begin an attempt.
    Begin { core: u8, spin: bool },
    /// Carry out what its attempt asks for.
    Go { core: u8 },
    /// Release the slot, if it took it.
    Leave { core: u8 },
}

impl Contenders {
    /// The state in which nobody has done anything.
    pub open spec fn idle() -> Contenders {
        Contenders { slot: None, attempt: Map::empty(), inside: Set::empty() }
    }

    /// The state after a move.
    pub open spec fn moved(self, m: Move) -> Contenders {
        match m {
            Move::Begin { core, spin } => if core == 0 {
                self
            } else {
                Contenders {
                    attempt: self.attempt.insert(core, SphLock::starting(0, core, spin)),
                    ..self
                }
            },
            Move::Go { core } => if !self.attempt.contains_key(core) {
                self
            } else {
                let l = self.attempt[core];
                match l.wants() {
                    Some(SphAction::ReadStatus { .. }) => {
                        let l2 = l.next(status(self.slot));
                        Contenders {
                            slot: self.slot,
                            attempt: self.attempt.insert(core, l2),
                            inside: if l2.phase == LockPhase::Finished(true) {
                                self.inside.insert(core)
                            } else {
                                self.inside
                            },
                        }
                    },
                    Some(_) => Contenders {
                        slot: locked(self.slot, core),
                        attempt: self.attempt.insert(core, l.next(SphReply::Done)),
                        inside: self.inside,
                    },
                    None => self,
                }
            },
            Move::Leave { core } => if self.inside.contains(core) {
                Contenders {
                    slot: unlocked(self.slot, core),
                    attempt: self.attempt.remove(core),
                    inside: self.inside.remove(core),
                }
            } else {
                self
            },
        }
    }

    /// The state after each of `moves` in turn.
    pub open spec fn played(self, moves: Seq<Move>) -> Contenders
        decreases moves.len(),
    {
        if moves.len() == 0 {
            self
        } else {
            self.played(moves.drop_last()).moved(moves.last())
        }
    }

    /// What holds however the cores interleave: a core that took the slot is the one it names, and
    /// a core whose attempt went past its first look had not taken it.
    pub open spec fn inv(self) -> bool {
        &&& forall|c: u8| #[trigger] self.inside.contains(c) ==> self.slot == Some(c)
        &&& forall|c: u8| #[trigger]
            self.attempt.contains_key(c) ==> {
                &&& c != 0
                &&& self.attempt[c].me == c
                &&& (self.attempt[c].phase == LockPhase::Request || self.attempt[c].phase
                    == LockPhase::Check) ==> !self.inside.contains(c)
            }
    }
}

proof fn lemma_moved_inv(s: Contenders, m: Move)
    requires
        s.inv(),
    ensures
        s.moved(m).inv(),
{
    let t = s.moved(m);
    match m {
        Move::Begin { core, spin } => {},
        Move::Go { core } => {
            if s.attempt.contains_key(core) {
                assert forall|c: u8| #[trigger] t.inside.contains(c) implies t.slot == Some(c) by {
                    if c != core {
                        assert(s.inside.contains(c));
                    }
                }
            }
        },
        Move::Leave { core } => {
            if s.inside.contains(core) {
                assert forall|c: u8| #[trigger] t.inside.contains(c) implies t.slot == Some(c) by {
                    assert(s.inside.contains(c));
                }
            }
        },
    }
}

/// However the cores interleave, the slot names every core that took it and has not released it.
pub proof fn law_holder_is_named(moves: Seq<Move>)
    ensures
        Contenders::idle().played(moves).inv(),
    decreases moves.len(),
{
    if moves.len() > 0 {
        law_holder_is_named(moves.drop_last());
        lemma_moved_inv(Contenders::idle().played(moves.drop_last()), moves.last());
    }
}

/// However the cores interleave, no two of them hold the slot at once.
pub proof fn law_mutual_exclusion(moves: Seq<Move>, a: u8, b: u8)
    requires
        Contenders::idle().played(moves).inside.contains(a),
        Contenders::idle().played(moves).inside.contains(b),
    ensures
        a == b,
{
    law_holder_is_named(moves);
}

/// A core that holds the slot cannot take it again: its next attempt ends at its first look, and
/// leaves the slot as it is.
pub proof fn law_not_reentrant(s: Contenders, core: u8, spin: bool)
    requires
        s.inv(),
        s.inside.contains(core),
        core != 0,
    ensures
        ({
            let t = s.moved(Move::Begin { core, spin }).moved(Move::Go { core });
            &&& t.slot == s.slot
            &&& t.attempt[core].phase == if spin {
                LockPhase::Reentrant
            } else {
                LockPhase::Finished(false)
            }
        }),
{
}

impl Move {
    /// The core that makes the move.
    pub open spec fn mover(self) -> u8 {
        match self {
            Move::Begin { core, .. } | Move::Go { core } | Move::Leave { core } => core,
        }
    }
}

/// A core whose lock command finds the slot idle has it: whatever the other cores do before it
/// looks, it takes the slot with that look.
pub proof fn law_first_command_wins(s: Contenders, core: u8, others: Seq<Move>)
    requires
        s.inv(),
        s.slot is None,
        s.attempt.contains_key(core),
        s.attempt[core].phase == LockPhase::Request,
        forall|i: int| 0 <= i < others.len() ==> (#[trigger] others[i]).mover() != core,
    ensures
        ({
            let t = s.moved(Move::Go { core }).played(others).moved(Move::Go { core });
            t.slot == Some(core) && t.inside.contains(core)
        }),
{
    lemma_moved_inv(s, Move::Go { core });
    lemma_slot_is_kept(s.moved(Move::Go { core }), core, others);
}

proof fn lemma_slot_is_kept(s: Contenders, core: u8, others: Seq<Move>)
    requires
        s.inv(),
        s.slot == Some(core),
        s.attempt.contains_key(core),
        s.attempt[core].phase == LockPhase::Check,
        forall|i: int| 0 <= i < others.len() ==> (#[trigger] others[i]).mover() != core,
    ensures
        ({
            let t = s.played(others);
            &&& t.inv()
            &&& t.slot == Some(core)
            &&& t.attempt.contains_key(core)
            &&& t.attempt[core].phase == LockPhase::Check
        }),
    decreases others.len(),
{
    if others.len() > 0 {
        let before = others.drop_last();
        assert(forall|i: int| 0 <= i < before.len() ==> #[trigger] before[i] == others[i]);
        lemma_slot_is_kept(s, core, before);
        lemma_moved_inv(s.played(before), others.last());
        assert(others[others.len() - 1].mover() != core);
    }
}

/// A core that finds the slot idle, and is not disturbed, takes it.
pub proof fn law_idle_slot_is_taken(s: Contenders, core: u8, spin: bool)
    requires
        s.slot is None,
        core != 0,
    ensures
        ({
            let t = s.moved(Move::Begin { core, spin }).moved(Move::Go { core }).moved(
                Move::Go { core },
            ).moved(Move::Go { core });
            t.slot == Some(core) && t.inside.contains(core)
        }),
{
}

/// The data of a slot is used only between the barrier that follows the lock and the barrier that
/// precedes the unlock: before a slot is held there is no way round the first one.
pub proof fn law_acquire_fences(a: Acquiring, reply: SphReply)
    requires
        !(a.phase is Held),
        a.next(reply).phase is Held,
    ensures
        a.wants() == Some(SphAction::Barrier),
        reply == SphReply::Done,
{
}

/// An attempt addresses its own slot and no other, gives no command but the lock command 1, and
/// keeps its slot and its core. It succeeds exactly when a status names its core after that command,
/// and takes no notice of a reply to something that it did not ask for.
pub proof fn law_attempt_stays_with_its_slot(l: SphLock, reply: SphReply)
    ensures
        match l.wants() {
            Some(SphAction::ReadStatus { n }) => n == l.n && (reply is Done ==> l.next(reply) == l),
            Some(SphAction::Command { n, value }) => n == l.n && value == 1 && (reply is Status
                ==> l.next(reply) == l),
            Some(_) => false,
            None => l.next(reply) == l,
        },
        l.next(reply).n == l.n,
        l.next(reply).me == l.me,
        l.next(reply).spin == l.spin,
        l.phase == LockPhase::Owner && reply is Status ==> l.next(reply).phase == if reply->state
            != 0 && reply->owner == l.me {
            if l.spin {
                LockPhase::Reentrant
            } else {
                LockPhase::Finished(false)
            }
        } else {
            LockPhase::Request
        },
        l.phase == LockPhase::Request && reply is Done ==> l.next(reply).phase == LockPhase::Check,
        l.phase == LockPhase::Check && reply is Status ==> l.next(reply).phase == if reply->owner
            == l.me {
            LockPhase::Finished(true)
        } else if l.spin {
            LockPhase::Request
        } else {
            LockPhase::Finished(false)
        },
{
}

/// Taking a slot for data goes through the attempt and then one barrier, on one slot and for one
/// core.
pub proof fn law_acquire_stays_with_its_slot(a: Acquiring, reply: SphReply)
    ensures
        a.next(reply).n == a.n,
        a.next(reply).me == a.me,
        Acquiring::starting(a.n, a.me, true).phase == AcquirePhase::Locking(
            SphLock { n: a.n, me: a.me, spin: true, phase: LockPhase::Owner },
        ),
        Acquiring::starting(a.n, a.me, false).phase == AcquirePhase::Locking(
            SphLock { n: a.n, me: a.me, spin: false, phase: LockPhase::Owner },
        ),
        a.phase matches AcquirePhase::Locking(l) ==> a.wants() == l.wants() && match a.next(
            reply,
        ).phase {
            AcquirePhase::Locking(k) => k == l.next(reply) && !(k.phase is Finished)
                && !(k.phase is Reentrant),
            AcquirePhase::Fencing => l.next(reply).phase == LockPhase::Finished(true),
            AcquirePhase::Refused => l.next(reply).phase == LockPhase::Finished(false),
            AcquirePhase::Reentrant => l.next(reply).phase == LockPhase::Reentrant,
            AcquirePhase::Held => false,
        },
        a.phase is Fencing ==> a.wants() == Some(SphAction::Barrier) && a.next(reply).phase
            == if reply is Done {
            AcquirePhase::Held
        } else {
            AcquirePhase::Fencing
        },
        a.phase is Held || a.phase is Refused || a.phase is Reentrant ==> a.wants() is None
            && a.next(reply) == a,
{
}

} // verus!
