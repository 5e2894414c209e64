//! Chip-select discipline for transfers on a shared SPI bus.
//!
//! A [`SpiWrapper`] stands for one chip-select line. Every transfer is
//! bracketed by driving the line low (asserted) before it and high (idle)
//! after it, whatever the transfer's outcome; a second transfer can only
//! begin once the first has ended. The wrapper keeps, as ghost state, every
//! level it has had written to the line, so these rules are stated over the
//! line's whole history.
use vstd::prelude::*;

verus! {

/// The electrical level of a digital line.
#[derive(Clone, Copy, Debug, PartialEq, Eq, Structural)]
pub enum Level {
    High,
    Low,
}

/// The direction of a digital line.
#[derive(Clone, Copy, Debug, PartialEq, Eq, Structural)]
pub enum PinMode {
    Input,
    Output,
}

/// A failed bus transfer, with the operating system's error code when
/// there is one.
#[derive(Clone, Copy, Debug, PartialEq, Eq, Structural)]
pub struct IoError {
    pub code: Option<i32>,
}

/// Why a transaction did not complete.
#[derive(Clone, Copy, Debug, PartialEq, Eq, Structural)]
pub enum TransactError {
    /// Another transaction is in flight on this chip-select line.
    Busy,
    /// The transmit and receive buffers differ in length.
    LengthMismatch,
    /// The bus transfer failed.
    Io(IoError),
}

/// The level written by the `i`-th write to a line that alternates,
/// starting from idle.
pub open spec fn alternating(i: int) -> Level {
    if i % 2 == 0 {
        Level::High
    } else {
        Level::Low
    }
}

/// What a finished transfer gives the caller: the received bytes when
/// there are as many as were asked for, else the error.
pub open spec fn settle(outcome: Result<Vec<u8>, IoError>, expected: nat) -> Result<
    Vec<u8>,
    TransactError,
> {
    match outcome {
        Ok(rx) => if rx@.len() == expected {
            Ok(rx)
        } else {
            Err(TransactError::LengthMismatch)
        },
        Err(e) => Err(TransactError::Io(e)),
    }
}

/// The chip-select line of one device on the bus, and the transaction that
/// is in flight on it, if any.
pub struct SpiWrapper {
    pin: u32,
    mode: PinMode,
    level: Level,
    pending: Option<usize>,
    writes: Ghost<Seq<Level>>,
}

impl SpiWrapper {
    /// The line's number.
    pub closed spec fn pin_spec(&self) -> u32 {
        self.pin
    }

    /// The line's direction.
    pub closed spec fn mode_spec(&self) -> PinMode {
        self.mode
    }

    /// The line's present level.
    pub closed spec fn level_spec(&self) -> Level {
        self.level
    }

    /// Whether a transaction is in flight.
    pub closed spec fn busy(&self) -> bool {
        self.pending is Some
    }

    /// How many bytes the transaction in flight expects back.
    pub closed spec fn expected(&self) -> nat {
        match self.pending {
            Some(n) => n as nat,
            None => 0,
        }
    }

    /// Every level written to the line since it was set up, oldest first.
    pub closed spec fn writes(&self) -> Seq<Level> {
        self.writes@
    }

    /// The line is an output; its writes alternate, starting with idle;
    /// its level is the last one written, and is low exactly while a
    /// transaction is in flight.
    pub closed spec fn wf(&self) -> bool {
        &&& self.mode == PinMode::Output
        &&& self.writes@.len() >= 1
        &&& self.writes@.last() == self.level
        &&& (self.level == Level::Low <==> self.pending is Some)
        &&& forall|i: int| 0 <= i < self.writes@.len() ==> #[trigger] self.writes@[i] == alternating(i)
    }

    /// A wrapper just set up on line `pin`: an output, driven idle once,
    /// with nothing in flight.
    pub open spec fn fresh(&self, pin: u32) -> bool {
        &&& self.wf()
        &&& self.pin_spec() == pin
        &&& self.mode_spec() == PinMode::Output
        &&& self.level_spec() == Level::High
        &&& !self.busy()
        &&& self.writes() == seq![Level::High]
    }

    /// `next` is `self` with a transaction opened that expects `len` bytes
    /// back: the line went from idle to asserted.
    pub open spec fn opened_to(&self, next: &SpiWrapper, len: nat) -> bool {
        &&& next.wf()
        &&& next.pin_spec() == self.pin_spec()
        &&& next.mode_spec() == PinMode::Output
        &&& self.level_spec() == Level::High
        &&& next.level_spec() == Level::Low
        &&& next.busy()
        &&& next.expected() == len
        &&& next.writes() == self.writes().push(Level::Low)
    }

    /// `next` is `self` with its transaction closed: the line went from
    /// asserted back to idle, and is still an output.
    pub open spec fn closed_to(&self, next: &SpiWrapper) -> bool {
        &&& next.wf()
        &&& next.pin_spec() == self.pin_spec()
        &&& next.mode_spec() == PinMode::Output
        &&& self.level_spec() == Level::Low
        &&& next.level_spec() == Level::High
        &&& !next.busy()
        &&& next.writes() == self.writes().push(Level::High)
    }

    /// Takes over line `pin` for chip select, recording it in `registry`:
    /// makes it an output and drives it idle. A line that already backs a
    /// wrapper is refused and the registry is left as it was; this is the
    /// only way to obtain a wrapper.
    pub fn new(registry: &mut PinRegistry, pin: u32) -> (r: Result<SpiWrapper, PinError>)
        requires
            old(registry).wf(),
        ensures
            final(registry).wf(),
            old(registry).owned().contains(pin) ==> r == Err::<SpiWrapper, PinError>(
                PinError::AlreadyOwned,
            ),
            old(registry).owned().contains(pin) ==> final(registry).owned() == old(
                registry,
            ).owned(),
            !old(registry).owned().contains(pin) ==> r is Ok && r->Ok_0.fresh(pin),
            !old(registry).owned().contains(pin) ==> final(registry).owned() == old(
                registry,
            ).owned().push(pin),
    {
        if registry.owns(pin) {
            return Err(PinError::AlreadyOwned);
        }
        registry.record(pin);
        Ok(SpiWrapper::idle_on(pin))
    }

    /// The wrapper state of a line just set up: an output, driven idle.
    fn idle_on(pin: u32) -> (r: SpiWrapper)
        ensures
            r.fresh(pin),
    {
        let ghost first = seq![Level::High];
        SpiWrapper {
            pin,
            mode: PinMode::Output,
            level: Level::High,
            pending: None,
            writes: Ghost(first),
        }
    }

    /// The line's number.
    pub fn pin(&self) -> (r: u32)
        ensures
            r == self.pin_spec(),
    {
        self.pin
    }

    /// The line's direction.
    pub fn mode(&self) -> (r: PinMode)
        ensures
            r == self.mode_spec(),
    {
        self.mode
    }

    /// The level the line must be driven to now.
    pub fn level(&self) -> (r: Level)
        ensures
            r == self.level_spec(),
    {
        self.level
    }

    /// Whether a transaction is in flight.
    pub fn is_busy(&self) -> (r: bool)
        ensures
            r == self.busy(),
    {
        self.pending.is_some()
    }

    /// Opens a transaction that sends `tx_len` bytes and receives `rx_len`
    /// (either may be zero, for a write or a read alone): asserts the line.
    /// Refused while another transaction is in flight, and when both
    /// lengths are given and differ; the line is then left as it was.
    pub fn begin(&mut self, tx_len: usize, rx_len: usize) -> (r: Result<(), TransactError>)
        requires
            old(self).wf(),
        ensures
            final(self).wf(),
            old(self).busy() ==> r == Err::<(), TransactError>(TransactError::Busy),
            old(self).busy() ==> *final(self) == *old(self),
            !old(self).busy() && tx_len != 0 && rx_len != 0 && tx_len != rx_len ==> r == Err::<(), TransactError>(TransactError::LengthMismatch),
            !old(self).busy() && tx_len != 0 && rx_len != 0 && tx_len != rx_len ==> *final(self) == *old(self),
            !old(self).busy() && (tx_len == 0 || rx_len == 0 || tx_len == rx_len) ==> r is Ok
                && old(self).opened_to(final(self), rx_len as nat),
    {
        if self.pending.is_some() {
            return Err(TransactError::Busy);
        }
        if tx_len != 0 && rx_len != 0 && tx_len != rx_len {
            return Err(TransactError::LengthMismatch);
        }
        let ghost before = self.writes@;
        self.level = Level::Low;
        self.pending = Some(rx_len);
        self.writes = Ghost(before.push(Level::Low));
        proof {
            lemma_push_alternating(before, Level::Low);
        }
        Ok(())
    }

    /// Opens a full-duplex transaction, which sends `tx_len` bytes and
    /// receives as many: asserts the line. Refused while another
    /// transaction is in flight, and whenever the two lengths differ; the
    /// line is then left as it was.
    pub fn begin_exchange(&mut self, tx_len: usize, rx_len: usize) -> (r: Result<(), TransactError>)
        requires
            old(self).wf(),
        ensures
            final(self).wf(),
            old(self).busy() ==> r == Err::<(), TransactError>(TransactError::Busy),
            !old(self).busy() && tx_len != rx_len ==> r == Err::<(), TransactError>(TransactError::LengthMismatch),
            r is Err ==> *final(self) == *old(self),
            !old(self).busy() && tx_len == rx_len ==> r is Ok && old(self).opened_to(
                final(self),
                rx_len as nat,
            ),
    {
        if self.pending.is_some() {
            return Err(TransactError::Busy);
        }
        if tx_len != rx_len {
            return Err(TransactError::LengthMismatch);
        }
        self.begin(tx_len, rx_len)
    }

    /// Closes the transaction in flight with the transfer's `outcome`:
    /// returns the line to idle, whether the transfer succeeded or failed,
    /// then hands back what was received, or the error.
    pub fn end(&mut self, outcome: Result<Vec<u8>, IoError>) -> (r: Result<Vec<u8>, TransactError>)
        requires
            old(self).wf(),
            old(self).busy(),
        ensures
            old(self).closed_to(final(self)),
            r == settle(outcome, old(self).expected()),
    {
        let expected = match self.pending {
            Some(n) => n,
            None => 0,
        };
        let ghost before = self.writes@;
        self.level = Level::High;
        self.pending = None;
        self.writes = Ghost(before.push(Level::High));
        proof {
            lemma_push_alternating(before, Level::High);
        }
        match outcome {
            Ok(rx) => if rx.len() == expected {
                Ok(rx)
            } else {
                Err(TransactError::LengthMismatch)
            },
            Err(e) => Err(TransactError::Io(e)),
        }
    }
}

/// Transactions on one line never overlap: after any write that asserts
/// the line, the very next write returns it to idle, so a later assertion
/// comes only after the earlier transaction has let the line go.
pub proof fn lemma_assertions_separated(w: &SpiWrapper, i: int, j: int)
    requires
        w.wf(),
        0 <= i < j < w.writes().len(),
        w.writes()[i] == Level::Low,
        w.writes()[j] == Level::Low,
    ensures
        i + 1 < j,
        w.writes()[i + 1] == Level::High,
{
    assert(w.writes()[i] == alternating(i));
    assert(w.writes()[j] == alternating(j));
    assert(w.writes()[i + 1] == alternating(i + 1));
}

/// Writing the next level of the alternation keeps a line's history
/// alternating.
proof fn lemma_push_alternating(before: Seq<Level>, l: Level)
    requires
        forall|i: int| 0 <= i < before.len() ==> #[trigger] before[i] == alternating(i),
        l == alternating(before.len() as int),
    ensures
        forall|i: int|
            0 <= i < before.push(l).len() ==> #[trigger] before.push(l)[i] == alternating(i),
{
    assert forall|i: int| 0 <= i < before.push(l).len() implies #[trigger] before.push(l)[i]
        == alternating(i) by {
        if i < before.len() {
            assert(before.push(l)[i] == before[i]);
        }
    }
}

/// What every wrapper shows from outside: its line is an output, its level
/// is the last one written, and the line is low exactly while a
/// transaction is in flight, so a high line means nothing is in flight.
pub proof fn lemma_line_state(w: &SpiWrapper)
    requires
        w.wf(),
    ensures
        w.mode_spec() == PinMode::Output,
        w.writes().len() >= 1,
        w.writes().last() == w.level_spec(),
        w.level_spec() == Level::Low <==> w.busy(),
        w.level_spec() == Level::High <==> !w.busy(),
{
}

/// A transaction brackets its transfer with the line: idle before it,
/// asserted while the transfer runs, idle again after it, and still an
/// output, whatever the transfer's outcome; the line's history gains
/// exactly one assertion and one release.
pub proof fn lemma_transaction_brackets(
    before: &SpiWrapper,
    during: &SpiWrapper,
    after: &SpiWrapper,
    len: nat,
)
    requires
        before.wf(),
        before.opened_to(during, len),
        during.closed_to(after),
    ensures
        before.level_spec() == Level::High,
        !before.busy(),
        during.level_spec() == Level::Low,
        after.level_spec() == Level::High,
        after.mode_spec() == PinMode::Output,
        !after.busy(),
        after.pin_spec() == before.pin_spec(),
        after.writes() == before.writes() + seq![Level::Low, Level::High],
{
    assert(after.writes() =~= before.writes() + seq![Level::Low, Level::High]);
}

/// Why a chip-select line could not be taken over.
#[derive(Clone, Copy, Debug, PartialEq, Eq, Structural)]
pub enum PinError {
    /// The line already backs another wrapper.
    AlreadyOwned,
}

/// The chip-select lines of a process, each of which backs one wrapper at
/// most.
pub struct PinRegistry {
    owned: Vec<u32>,
}

impl PinRegistry {
    /// The lines taken over so far, in the order they were claimed.
    pub closed spec fn owned(&self) -> Seq<u32> {
        self.owned@
    }

    /// No line is listed twice.
    pub closed spec fn wf(&self) -> bool {
        self.owned@.no_duplicates()
    }

    /// A registry with no line taken.
    pub fn new() -> (r: PinRegistry)
        ensures
            r.wf(),
            r.owned() == Seq::<u32>::empty(),
    {
        PinRegistry { owned: Vec::new() }
    }

    /// Whether line `pin` has been taken over.
    pub fn owns(&self, pin: u32) -> (r: bool)
        ensures
            r == self.owned().contains(pin),
    {
        let mut i: usize = 0;
        while i < self.owned.len()
            invariant
                i <= self.owned@.len(),
                forall|k: int| 0 <= k < i ==> self.owned@[k] != pin,
            decreases self.owned@.len() - i,
        {
            if self.owned[i] == pin {
                assert(self.owned@[i as int] == pin);
                return true;
            }
            i = i + 1;
        }
        false
    }

    /// Adds line `pin`, which is not listed yet.
    fn record(&mut self, pin: u32)
        requires
            old(self).wf(),
            !old(self).owned().contains(pin),
        ensures
            final(self).wf(),
            final(self).owned() == old(self).owned().push(pin),
    {
        let ghost before = self.owned@;
        self.owned.push(pin);
        assert forall|a: int, b: int| 0 <= a < b < self.owned@.len() implies self.owned@[a]
            != self.owned@[b] by {
            if b == before.len() {
                assert(before.contains(before[a]));
            } else {
                assert(before[a] != before[b]);
            }
        }
    }

    /// Takes over line `pin` and sets up its wrapper: the same as
    /// [`SpiWrapper::new`] on this registry.
    pub fn claim(&mut self, pin: u32) -> (r: Result<SpiWrapper, PinError>)
        requires
            old(self).wf(),
        ensures
            final(self).wf(),
            old(self).owned().contains(pin) ==> r == Err::<SpiWrapper, PinError>(
                PinError::AlreadyOwned,
            ),
            old(self).owned().contains(pin) ==> final(self).owned() == old(self).owned(),
            !old(self).owned().contains(pin) ==> r is Ok && r->Ok_0.fresh(pin),
            !old(self).owned().contains(pin) ==> final(self).owned() == old(self).owned().push(pin),
    {
        SpiWrapper::new(self, pin)
    }
}

/// No two wrappers handed out by one registry drive the same line: the
/// lines it has handed out are pairwise distinct.
pub proof fn lemma_claims_exclusive(reg: &PinRegistry, i: int, j: int)
    requires
        reg.wf(),
        0 <= i < j < reg.owned().len(),
    ensures
        reg.owned()[i] != reg.owned()[j],
{
}

} // verus!
