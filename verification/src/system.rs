//! What every module shares: who is calling, which block is being built,
//! the block's random seed, and the log of events of the block.

use vstd::prelude::*;

verus! {

/// The identity of a caller.
pub type AccountId = u64;

/// The number of a block.
pub type BlockNumber = u64;

/// An amount of currency.
pub type Balance = u128;

/// Where a command comes from.
#[derive(Clone, Copy, Debug, PartialEq, Eq)]
pub enum RawOrigin {
    /// The system itself.
    Root,
    /// An account that signed the command.
    Signed(AccountId),
    /// Nobody: the command is unsigned.
    Unsigned,
}

/// The origin is not the one that the command asks for.
#[derive(Clone, Copy, Debug, PartialEq, Eq)]
pub struct BadOrigin;

/// Why a command was refused.
#[derive(Clone, Copy, Debug, PartialEq, Eq)]
pub enum DispatchError<E> {
    /// The origin is not the one that the command asks for.
    BadOrigin,
    /// The module refused the command.
    Module(E),
    /// The currency refused a payment that the command has to make.
    Token(crate::balances::Error),
}

/// The account that signed, where one did.
pub fn ensure_signed(origin: RawOrigin) -> (r: Result<AccountId, BadOrigin>)
    ensures
        r == match origin {
            RawOrigin::Signed(who) => Ok::<AccountId, BadOrigin>(who),
            _ => Err(BadOrigin),
        },
{
    match origin {
        RawOrigin::Signed(who) => Ok(who),
        _ => Err(BadOrigin),
    }
}

/// Accepts only the unsigned origin.
pub fn ensure_none(origin: RawOrigin) -> (r: Result<(), BadOrigin>)
    ensures
        r is Ok == (origin is Unsigned),
{
    match origin {
        RawOrigin::Unsigned => Ok(()),
        _ => Err(BadOrigin),
    }
}

/// Accepts only the root origin.
pub fn ensure_root(origin: RawOrigin) -> (r: Result<(), BadOrigin>)
    ensures
        r is Ok == (origin is Root),
{
    match origin {
        RawOrigin::Root => Ok(()),
        _ => Err(BadOrigin),
    }
}

/// An event of any module.
#[derive(Clone, Debug, PartialEq, Eq)]
pub enum RuntimeEvent {
    Poe(crate::poe::Event),
    Poex(crate::poex::Event),
    Kittiesx(crate::kittiesx::Event),
    Ocwx(crate::ocwx::Event),
}

/// `after` is `before` with one more event at its end.
pub open spec fn one_more(before: Seq<RuntimeEvent>, after: Seq<RuntimeEvent>) -> bool {
    after.len() == before.len() + 1 && after.drop_last() == before
}

/// The log of the events of the block being built, oldest first. Events
/// can be emitted in a scope that is either kept or undone as a whole.
pub struct EventSink {
    log: Vec<RuntimeEvent>,
    mark: Option<usize>,
}

impl View for EventSink {
    type V = Seq<RuntimeEvent>;

    closed spec fn view(&self) -> Seq<RuntimeEvent> {
        self.log@
    }
}

impl EventSink {
    #[verifier::type_invariant]
    spec fn well_formed(self) -> bool {
        self.mark is Some ==> self.mark->Some_0 <= self.log@.len()
    }

    /// Whether a scope is open.
    pub closed spec fn in_transaction(&self) -> bool {
        self.mark is Some
    }

    /// What the log goes back to when the open scope is undone: what it
    /// held when the scope was opened. Without a scope, what it holds.
    pub closed spec fn saved(&self) -> Seq<RuntimeEvent> {
        match self.mark {
            Some(n) => self.log@.take(n as int),
            None => self.log@,
        }
    }

    /// An empty log.
    pub fn new() -> (sink: Self)
        ensures
            sink@ == Seq::<RuntimeEvent>::empty(),
            !sink.in_transaction(),
            sink.saved() == sink@,
    {
        EventSink { log: Vec::new(), mark: None }
    }

    /// Opens a scope: what the log holds now is what it goes back to when
    /// the scope is undone. A scope that was open is kept first.
    pub fn begin_transaction(&mut self)
        ensures
            final(self)@ == old(self)@,
            final(self).saved() == old(self)@,
            final(self).in_transaction(),
    {
        self.mark = Some(self.log.len());
        assert(self.log@.take(self.log@.len() as int) =~= self.log@);
    }

    /// Keeps the events of the open scope and closes it.
    pub fn commit_transaction(&mut self)
        ensures
            final(self)@ == old(self)@,
            final(self).saved() == old(self)@,
            !final(self).in_transaction(),
    {
        self.mark = None;
    }

    /// Forgets the events of the open scope and closes it.
    pub fn rollback_transaction(&mut self)
        ensures
            final(self)@ == old(self).saved(),
            final(self).saved() == old(self).saved(),
            !final(self).in_transaction(),
    {
        proof {
            use_type_invariant(&*self);
        }
        let mark = self.mark;
        self.mark = None;
        match mark {
            Some(n) => {
                let mut log: Vec<RuntimeEvent> = Vec::new();
                core::mem::swap(&mut self.log, &mut log);
                log.truncate(n);
                assert(log@ =~= old(self).log@.take(n as int));
                self.log = log;
            },
            None => {},
        }
    }

    /// Appends `event`.
    pub fn emit(&mut self, event: RuntimeEvent)
        ensures
            final(self)@ == old(self)@.push(event),
            old(self).in_transaction() ==> final(self).saved() == old(self).saved(),
            !old(self).in_transaction() ==> final(self).saved() == final(self)@,
            final(self).in_transaction() == old(self).in_transaction(),
    {
        proof {
            use_type_invariant(&*self);
        }
        let mark = self.mark;
        self.mark = None;
        let mut log: Vec<RuntimeEvent> = Vec::new();
        core::mem::swap(&mut self.log, &mut log);
        log.push(event);
        self.log = log;
        self.mark = mark;
        proof {
            if mark is Some {
                assert(self.log@.take(mark->Some_0 as int) =~= old(self).log@.take(
                    mark->Some_0 as int,
                ));
            }
        }
    }

    /// The event emitted last, if any was.
    pub fn last(&self) -> (event: Option<&RuntimeEvent>)
        ensures
            event is Some == (self@.len() > 0),
            event is Some ==> *event->Some_0 == self@.last(),
    {
        if self.log.len() == 0 {
            None
        } else {
            Some(&self.log[self.log.len() - 1])
        }
    }

    /// The number of events emitted in this block.
    pub fn count(&self) -> (n: usize)
        ensures
            n == self@.len(),
    {
        self.log.len()
    }

    /// Forgets every event, and any open scope with them.
    pub fn reset(&mut self)
        ensures
            final(self)@ == Seq::<RuntimeEvent>::empty(),
            final(self).saved() == final(self)@,
            !final(self).in_transaction(),
    {
        self.mark = None;
        self.log = Vec::new();
    }
}

/// The state that the modules share while a block is built.
pub struct System {
    /// The number of the block being built.
    pub block_number: BlockNumber,
    /// The index of the command being run within the block, while one runs.
    pub extrinsic_index: Option<u32>,
    /// The random seed of the block, the same for every caller in it.
    pub random_seed: [u8; 32],
    /// The events of the block.
    pub events: EventSink,
}

impl System {
    /// The state before the first block: block 0, no command, a seed of
    /// zeros, no events.
    pub fn new() -> (sys: Self)
        ensures
            sys.block_number == 0,
            sys.extrinsic_index is None,
            sys.random_seed@ == Seq::new(32, |i: int| 0u8),
            sys.events@ == Seq::<RuntimeEvent>::empty(),
    {
        let sys = System {
            block_number: 0,
            extrinsic_index: None,
            random_seed: [0u8;32],
            events: EventSink::new(),
        };
        assert(sys.random_seed@ =~= Seq::new(32, |i: int| 0u8));
        sys
    }

    /// Starts the block `number` with the seed `seed`: the events of the
    /// block before are gone, and no command runs yet.
    pub fn initialize_block(&mut self, number: BlockNumber, seed: [u8; 32])
        ensures
            final(self).block_number == number,
            final(self).random_seed == seed,
            final(self).extrinsic_index is None,
            final(self).events@ == Seq::<RuntimeEvent>::empty(),
    {
        self.block_number = number;
        self.random_seed = seed;
        self.extrinsic_index = None;
        self.events.reset();
    }

    /// Sets the number of the block being built.
    pub fn set_block_number(&mut self, number: BlockNumber)
        ensures
            *final(self) == (System { block_number: number, ..*old(self) }),
    {
        self.block_number = number;
    }

    /// The number of the block being built.
    pub fn block_number(&self) -> (n: BlockNumber)
        ensures
            n == self.block_number,
    {
        self.block_number
    }

    /// The random seed of the block.
    pub fn random_seed(&self) -> (seed: [u8; 32])
        ensures
            seed == self.random_seed,
    {
        self.random_seed
    }

    /// The index of the command being run, while one runs.
    pub fn extrinsic_index(&self) -> (index: Option<u32>)
        ensures
            index == self.extrinsic_index,
    {
        self.extrinsic_index
    }

    /// Appends `event` to the events of the block.
    pub fn deposit_event(&mut self, event: RuntimeEvent)
        ensures
            final(self).events@ == old(self).events@.push(event),
            old(self).events.in_transaction() ==> final(self).events.saved() == old(self).events.saved(),
            !old(self).events.in_transaction() ==> final(self).events.saved() == final(self).events@,
            final(self).events.in_transaction() == old(self).events.in_transaction(),
            final(self).block_number == old(self).block_number,
            final(self).extrinsic_index == old(self).extrinsic_index,
            final(self).random_seed == old(self).random_seed,
    {
        self.events.emit(event);
    }
}

} // verus!
