//! Driver logic for two cascaded 8259-compatible interrupt controllers.
//!
//! The controllers are reprogrammed over four I/O ports; the protocol is a
//! fixed, order-sensitive sequence of byte writes. The driver here computes
//! the exact write sequences — initialization and end-of-interrupt
//! acknowledgment — and unverified glue puts them on the wire. A small model
//! of the controllers' write behaviour ([`PicPairState`]) lets the crate
//! prove that initialization is transparent to the interrupt masks.

use vstd::prelude::*;

use crate::port::{Port, PortWrite8};

verus! {

/// Command byte that starts the four-word initialization sequence.
pub const CMD_INIT: u8 = 0x11;

/// Command byte that acknowledges one serviced interrupt.
pub const CMD_END_OF_INTERRUPT: u8 = 0x20;

/// Fourth initialization word: select 8086/88 mode.
pub const MODE_8086: u8 = 0x01;

/// Command port of the master controller.
pub const MASTER_COMMAND: u16 = 0x20;

/// Data port of the master controller.
pub const MASTER_DATA: u16 = 0x21;

/// Command port of the slave controller.
pub const SLAVE_COMMAND: u16 = 0xA0;

/// Data port of the slave controller.
pub const SLAVE_DATA: u16 = 0xA1;

/// An unused port; a write to it serves as the required inter-command delay.
pub const WAIT_PORT: u16 = 0x80;

/// Third initialization word on the master: a slave hangs off line 2.
pub const CASCADE_MASTER: u8 = 4;

/// Third initialization word on the slave: its cascade identity.
pub const CASCADE_SLAVE: u8 = 2;

/// Shorthand for one byte write to one port.
pub open spec fn pw(port: u16, value: u8) -> PortWrite8 {
    PortWrite8 { port, value }
}

/// Whether a controller with the given vector offset reports the given
/// interrupt vector: each controller covers eight consecutive vectors.
pub open spec fn handles_spec(offset: u8, interrupt_id: u8) -> bool {
    offset <= interrupt_id < offset + 8
}

/// The full initialization write sequence: the four initialization words go
/// to both controllers in order, a delay write after every single one, and
/// the saved masks are restored at the end.
pub open spec fn init_writes_spec(offset1: u8, offset2: u8, mask1: u8, mask2: u8) -> Seq<
    PortWrite8,
> {
    seq![
        pw(MASTER_COMMAND, CMD_INIT),
        pw(WAIT_PORT, 0),
        pw(SLAVE_COMMAND, CMD_INIT),
        pw(WAIT_PORT, 0),
        pw(MASTER_DATA, offset1),
        pw(WAIT_PORT, 0),
        pw(SLAVE_DATA, offset2),
        pw(WAIT_PORT, 0),
        pw(MASTER_DATA, CASCADE_MASTER),
        pw(WAIT_PORT, 0),
        pw(SLAVE_DATA, CASCADE_SLAVE),
        pw(WAIT_PORT, 0),
        pw(MASTER_DATA, MODE_8086),
        pw(WAIT_PORT, 0),
        pw(SLAVE_DATA, MODE_8086),
        pw(WAIT_PORT, 0),
        pw(MASTER_DATA, mask1),
        pw(SLAVE_DATA, mask2),
    ]
}

/// The acknowledgment write sequence for one serviced vector: a slave vector
/// acknowledges the slave first and then the master on its behalf, a master
/// vector acknowledges the master alone, and a vector of neither controller
/// is ignored.
pub open spec fn eoi_writes_spec(offset1: u8, offset2: u8, interrupt_id: u8) -> Seq<PortWrite8> {
    if handles_spec(offset2, interrupt_id) {
        seq![pw(SLAVE_COMMAND, CMD_END_OF_INTERRUPT), pw(MASTER_COMMAND, CMD_END_OF_INTERRUPT)]
    } else if handles_spec(offset1, interrupt_id) {
        seq![pw(MASTER_COMMAND, CMD_END_OF_INTERRUPT)]
    } else {
        Seq::empty()
    }
}

/// One 8259-compatible controller: its vector offset, its two ports, and the
/// cascade word it is initialized with.
struct Pic {
    offset: u8,
    command: Port<u8>,
    data: Port<u8>,
    cascade: u8,
}

impl Pic {
    /// Whether this controller reports the given interrupt vector.
    fn handles_interrupt(&self, interrupt_id: u8) -> (r: bool)
        ensures
            r == handles_spec(self.offset, interrupt_id),
    {
        self.offset <= interrupt_id && (interrupt_id as u16) < (self.offset as u16) + 8
    }

    /// The acknowledgment write for this controller.
    fn end_of_interrupt(&self) -> (r: PortWrite8)
        ensures
            r == pw(self.command.address(), CMD_END_OF_INTERRUPT),
    {
        PortWrite8 { port: self.command.addr(), value: CMD_END_OF_INTERRUPT }
    }

    // Initialization Command Words

    fn icw1(&self) -> (r: PortWrite8)
        ensures
            r == pw(self.command.address(), CMD_INIT),
    {
        PortWrite8 { port: self.command.addr(), value: CMD_INIT }
    }

    fn icw2(&self) -> (r: PortWrite8)
        ensures
            r == pw(self.data.address(), self.offset),
    {
        PortWrite8 { port: self.data.addr(), value: self.offset }
    }

    fn icw3(&self) -> (r: PortWrite8)
        ensures
            r == pw(self.data.address(), self.cascade),
    {
        PortWrite8 { port: self.data.addr(), value: self.cascade }
    }

    fn icw4(&self) -> (r: PortWrite8)
        ensures
            r == pw(self.data.address(), MODE_8086),
    {
        PortWrite8 { port: self.data.addr(), value: MODE_8086 }
    }

    /// The mask-restore write for this controller.
    fn write_mask(&self, mask: u8) -> (r: PortWrite8)
        ensures
            r == pw(self.data.address(), mask),
    {
        PortWrite8 { port: self.data.addr(), value: mask }
    }
}

/// Two cascaded controllers wired master to slave.
pub struct ChainedPics {
    master: Pic,
    slave: Pic,
}

impl ChainedPics {
    /// The vector offset of the master controller.
    pub closed spec fn offset1(self) -> u8 {
        self.master.offset
    }

    /// The vector offset of the slave controller.
    pub closed spec fn offset2(self) -> u8 {
        self.slave.offset
    }

    /// The configuration invariant: the two controllers sit on their
    /// architectural ports with their fixed cascade words, the slave's
    /// vectors follow directly after the master's, and both ranges avoid the
    /// 32 processor-reserved vectors.
    pub closed spec fn wf(self) -> bool {
        &&& self.master.command.address() == MASTER_COMMAND
        &&& self.master.data.address() == MASTER_DATA
        &&& self.master.cascade == CASCADE_MASTER
        &&& self.slave.command.address() == SLAVE_COMMAND
        &&& self.slave.data.address() == SLAVE_DATA
        &&& self.slave.cascade == CASCADE_SLAVE
        &&& 32 <= self.master.offset <= 240
        &&& self.slave.offset == self.master.offset + 8
    }

    /// Stores the configuration; performs no I/O, so it may run before any
    /// port access is legal.
    pub fn new(offset1: u8, offset2: u8) -> (r: Self)
        requires
            32 <= offset1 <= 240,
            offset2 == offset1 + 8,
        ensures
            r.wf(),
            r.offset1() == offset1,
            r.offset2() == offset2,
    {
        ChainedPics {
            master: Pic {
                offset: offset1,
                command: Port::new(MASTER_COMMAND),
                data: Port::new(MASTER_DATA),
                cascade: CASCADE_MASTER,
            },
            slave: Pic {
                offset: offset2,
                command: Port::new(SLAVE_COMMAND),
                data: Port::new(SLAVE_DATA),
                cascade: CASCADE_SLAVE,
            },
        }
    }

    /// The initialization sequence, with the previously saved masks to
    /// restore at the end. The caller reads the masks from the two data
    /// ports beforehand and performs these writes in order.
    pub fn init(&self, saved_mask1: u8, saved_mask2: u8) -> (r: Vec<PortWrite8>)
        requires
            self.wf(),
        ensures
            r@ == init_writes_spec(self.offset1(), self.offset2(), saved_mask1, saved_mask2),
    {
        let mut r: Vec<PortWrite8> = Vec::new();
        let wait = PortWrite8 { port: WAIT_PORT, value: 0 };
        r.push(self.master.icw1());
        r.push(wait);
        r.push(self.slave.icw1());
        r.push(wait);
        r.push(self.master.icw2());
        r.push(wait);
        r.push(self.slave.icw2());
        r.push(wait);
        r.push(self.master.icw3());
        r.push(wait);
        r.push(self.slave.icw3());
        r.push(wait);
        r.push(self.master.icw4());
        r.push(wait);
        r.push(self.slave.icw4());
        r.push(wait);
        r.push(self.master.write_mask(saved_mask1));
        r.push(self.slave.write_mask(saved_mask2));
        proof {
            assert(r@ =~= init_writes_spec(self.offset1(), self.offset2(), saved_mask1,
            saved_mask2));
        }
        r
    }

    /// The acknowledgment writes for one serviced vector. Must be performed
    /// once per serviced hardware interrupt, after the device has been read;
    /// for a slave vector the slave write comes first, and a vector of
    /// neither controller produces no write at all.
    pub fn notify_end_of_interrupt(&self, interrupt_id: u8) -> (r: Vec<PortWrite8>)
        requires
            self.wf(),
        ensures
            r@ == eoi_writes_spec(self.offset1(), self.offset2(), interrupt_id),
    {
        let mut r: Vec<PortWrite8> = Vec::new();
        if self.slave.handles_interrupt(interrupt_id) {
            r.push(self.slave.end_of_interrupt());
            r.push(self.master.end_of_interrupt());
        } else if self.master.handles_interrupt(interrupt_id) {
            r.push(self.master.end_of_interrupt());
        }
        proof {
            assert(r@ =~= eoi_writes_spec(self.offset1(), self.offset2(), interrupt_id));
        }
        r
    }
}

// ---------------------------------------------------------------------------
// A model of how the two controllers react to the writes above, rich enough
// to state what initialization does to the mask registers: a command-port
// write of the initialization command makes the controller consume the next
// three data-port writes as initialization words; any other data-port write
// sets the mask register.
// ---------------------------------------------------------------------------

/// The modelled state of one controller.
pub struct PicDeviceState {
    /// The interrupt mask register (1 = line disabled).
    pub mask: u8,
    /// How many data-port writes the controller still consumes as
    /// initialization words.
    pub init_words_left: u8,
}

/// The modelled state of the master/slave pair.
pub struct PicPairState {
    pub master: PicDeviceState,
    pub slave: PicDeviceState,
}

/// One write as one controller sees it.
pub open spec fn device_write(s: PicDeviceState, is_command: bool, value: u8) -> PicDeviceState {
    if is_command {
        if value == CMD_INIT {
            PicDeviceState { mask: s.mask, init_words_left: 3 }
        } else {
            s
        }
    } else {
        if s.init_words_left > 0 {
            PicDeviceState { mask: s.mask, init_words_left: (s.init_words_left - 1) as u8 }
        } else {
            PicDeviceState { mask: value, init_words_left: 0 }
        }
    }
}

/// One write as the pair sees it: routed by port address; writes to other
/// ports (such as the delay port) change nothing.
pub open spec fn pair_write(s: PicPairState, w: PortWrite8) -> PicPairState {
    if w.port == MASTER_COMMAND {
        PicPairState { master: device_write(s.master, true, w.value), slave: s.slave }
    } else if w.port == MASTER_DATA {
        PicPairState { master: device_write(s.master, false, w.value), slave: s.slave }
    } else if w.port == SLAVE_COMMAND {
        PicPairState { master: s.master, slave: device_write(s.slave, true, w.value) }
    } else if w.port == SLAVE_DATA {
        PicPairState { master: s.master, slave: device_write(s.slave, false, w.value) }
    } else {
        s
    }
}

/// The pair state after the first `n` of a sequence of writes.
pub open spec fn run_writes_prefix(s: PicPairState, ws: Seq<PortWrite8>, n: int) -> PicPairState
    decreases n,
{
    if n <= 0 {
        s
    } else {
        pair_write(run_writes_prefix(s, ws, n - 1), ws[n - 1])
    }
}

/// The pair state after a whole sequence of writes.
pub open spec fn run_writes(s: PicPairState, ws: Seq<PortWrite8>) -> PicPairState {
    run_writes_prefix(s, ws, ws.len() as int)
}

/// Initialization leaves the mask registers holding exactly the masks it was
/// given to restore, and leaves both controllers out of their initialization
/// windows — so when the glue passes in the masks it just read, the readable
/// masks after `init` equal their values before.
pub proof fn lemma_init_writes_set_masks(
    s: PicPairState,
    offset1: u8,
    offset2: u8,
    mask1: u8,
    mask2: u8,
)
    requires
        s.master.init_words_left == 0,
        s.slave.init_words_left == 0,
    ensures
        ({
            let t = run_writes(s, init_writes_spec(offset1, offset2, mask1, mask2));
            &&& t.master.mask == mask1
            &&& t.slave.mask == mask2
            &&& t.master.init_words_left == 0
            &&& t.slave.init_words_left == 0
        }),
{
    let ws = init_writes_spec(offset1, offset2, mask1, mask2);
    assert(run_writes(s, ws) == run_writes_prefix(s, ws, 18));
    reveal_with_fuel(run_writes_prefix, 20);
}

/// Initialization is transparent: run with the masks the controllers already
/// hold, it returns the pair to exactly its starting state.
pub proof fn lemma_init_preserves_masks(s: PicPairState, offset1: u8, offset2: u8)
    requires
        s.master.init_words_left == 0,
        s.slave.init_words_left == 0,
    ensures
        run_writes(s, init_writes_spec(offset1, offset2, s.master.mask, s.slave.mask)) == s,
{
    lemma_init_writes_set_masks(s, offset1, offset2, s.master.mask, s.slave.mask);
    let t = run_writes(s, init_writes_spec(offset1, offset2, s.master.mask, s.slave.mask));
    assert(t.master == s.master);
    assert(t.slave == s.slave);
}

} // verus!
