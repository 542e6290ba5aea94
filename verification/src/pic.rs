//! Driver of the two chained interrupt controllers.
//!
//! The driver does no port I/O of its own. Each operation updates the
//! driver's record of the controllers and returns the port writes that bring
//! the hardware to that state, in the order in which they must be performed.
//!
//! The record is plain data, and both the handlers and the code that they
//! interrupt use it. Whoever shares it between the two must keep them apart:
//! the interrupted side may touch the record, and perform its writes, only
//! while the processor takes no interrupts. A handler then never finds the
//! record in use, and never has to wait for it.

use vstd::prelude::*;

verus! {

/// Command port of the primary controller.
pub const PRIMARY_COMMAND: u16 = 0x20;

/// Data port of the primary controller; its mask register once it is set up.
pub const PRIMARY_DATA: u16 = 0x21;

/// Command port of the secondary controller.
pub const SECONDARY_COMMAND: u16 = 0xA0;

/// Data port of the secondary controller; its mask register once it is set up.
pub const SECONDARY_DATA: u16 = 0xA1;

/// A port that nothing listens on. A write to it takes long enough for a
/// controller to digest the word written before.
pub const WAIT_PORT: u16 = 0x80;

/// Command word that opens a controller's setup sequence.
pub const CMD_INIT: u8 = 0x11;

/// Command word that ends the service of an interrupt.
pub const CMD_END_OF_INTERRUPT: u8 = 0x20;

/// Mode word of the setup sequence: 8086/88 mode.
pub const MODE_8086: u8 = 0x01;

/// The line of the primary controller that the secondary is chained to.
pub const CASCADE_LINE: u8 = 2;

/// Number of lines of one controller.
pub const LINES: u8 = 8;

/// One byte written to one I/O port.
#[derive(Debug, Clone, Copy, PartialEq, Eq, Structural)]
pub struct PortWrite {
    pub port: u16,
    pub value: u8,
}

/// Whether the bit of `line` is set in `register`.
pub open spec fn bit_is_set(register: u8, line: u8) -> bool {
    register & (1u8 << line) != 0
}

/// `register` with the bit of `line` set.
pub open spec fn with_bit(register: u8, line: u8) -> u8 {
    register | (1u8 << line)
}

/// `register` with the bit of `line` cleared.
pub open spec fn without_bit(register: u8, line: u8) -> u8 {
    register & !(1u8 << line)
}

/// How many of the lowest `lines` bits of `mask` are clear, that is how many
/// of those lines the mask leaves open.
pub open spec fn open_lines(mask: u8, lines: int) -> int
    decreases lines,
{
    if lines <= 0 {
        0
    } else {
        open_lines(mask, lines - 1) + if bit_is_set(mask, (lines - 1) as u8) {
            0int
        } else {
            1int
        }
    }
}

/// What the driver knows of one controller.
#[derive(Debug, Clone, Copy, PartialEq, Eq, Structural)]
pub struct Pic {
    /// The vector of the controller's line 0.
    pub offset: u8,
    /// The port that takes the controller's command words.
    pub command: u16,
    /// The port that takes its setup words and its mask.
    pub data: u16,
    /// The interrupt-mask register: a set bit disables the line.
    pub mask: u8,
    /// The lines whose interrupt was taken and not yet ended.
    pub in_service: u8,
}

impl Pic {
    /// Whether `vector` belongs to one of the controller's eight lines.
    pub open spec fn handles(self, vector: u8) -> bool {
        self.offset <= vector < self.offset + LINES
    }

    /// Whether `vector` belongs to one of the controller's eight lines.
    pub fn handles_interrupt(&self, vector: u8) -> (handled: bool)
        ensures
            handled == self.handles(vector),
    {
        self.offset <= vector && vector - self.offset < LINES
    }
}

/// The offsets that the two controllers can be given: clear of the 32
/// vectors that the processor keeps for its exceptions, the secondary
/// directly behind the primary, and all sixteen lines below 256.
pub open spec fn valid_offsets(base_offset_1: u8, base_offset_2: u8) -> bool {
    &&& 32 <= base_offset_1
    &&& base_offset_2 == base_offset_1 + LINES
    &&& base_offset_2 + LINES <= 256
}

/// The eight words that set both controllers up, without the pauses between
/// them: the opening command, the offsets, the chaining (the primary is told
/// the cascade line as a bit, the secondary as a number) and the mode, each
/// to the primary first.
pub open spec fn setup_words(base_offset_1: u8, base_offset_2: u8) -> Seq<PortWrite> {
    seq![
        PortWrite { port: PRIMARY_COMMAND, value: CMD_INIT },
        PortWrite { port: SECONDARY_COMMAND, value: CMD_INIT },
        PortWrite { port: PRIMARY_DATA, value: base_offset_1 },
        PortWrite { port: SECONDARY_DATA, value: base_offset_2 },
        PortWrite { port: PRIMARY_DATA, value: 1u8 << CASCADE_LINE },
        PortWrite { port: SECONDARY_DATA, value: CASCADE_LINE },
        PortWrite { port: PRIMARY_DATA, value: MODE_8086 },
        PortWrite { port: SECONDARY_DATA, value: MODE_8086 },
    ]
}

/// `words` with a write to the wait port behind each of them.
pub open spec fn paced(words: Seq<PortWrite>) -> Seq<PortWrite> {
    Seq::new(
        2 * words.len(),
        |i: int|
            if i % 2 == 0 {
                words[i / 2]
            } else {
                PortWrite { port: WAIT_PORT, value: 0 }
            },
    )
}

/// The two writes that set the mask registers, the primary's first.
pub open spec fn mask_writes(mask_primary: u8, mask_secondary: u8) -> Seq<PortWrite> {
    seq![
        PortWrite { port: PRIMARY_DATA, value: mask_primary },
        PortWrite { port: SECONDARY_DATA, value: mask_secondary },
    ]
}

/// The whole setup: the paced setup words, then both masks closed.
pub open spec fn setup_writes(base_offset_1: u8, base_offset_2: u8) -> Seq<PortWrite> {
    paced(setup_words(base_offset_1, base_offset_2)) + mask_writes(0xFF, 0xFF)
}

/// What the driver knows of the two controllers.
#[derive(Debug, Clone, Copy, PartialEq, Eq, Structural)]
pub struct PicPair {
    pub primary: Pic,
    pub secondary: Pic,
}

impl PicPair {
    /// The offsets are valid, and each controller has its own ports.
    pub open spec fn valid(self) -> bool {
        &&& valid_offsets(self.primary.offset, self.secondary.offset)
        &&& self.primary.command == PRIMARY_COMMAND
        &&& self.primary.data == PRIMARY_DATA
        &&& self.secondary.command == SECONDARY_COMMAND
        &&& self.secondary.data == SECONDARY_DATA
    }

    /// The controllers right after their setup: every line masked, none in
    /// service.
    pub open spec fn fresh(base_offset_1: u8, base_offset_2: u8) -> PicPair {
        PicPair {
            primary: Pic {
                offset: base_offset_1,
                command: PRIMARY_COMMAND,
                data: PRIMARY_DATA,
                mask: 0xFF,
                in_service: 0,
            },
            secondary: Pic {
                offset: base_offset_2,
                command: SECONDARY_COMMAND,
                data: SECONDARY_DATA,
                mask: 0xFF,
                in_service: 0,
            },
        }
    }

    /// The controllers with their mask registers set anew.
    pub open spec fn masked(self, mask_primary: u8, mask_secondary: u8) -> PicPair {
        PicPair {
            primary: Pic { mask: mask_primary, ..self.primary },
            secondary: Pic { mask: mask_secondary, ..self.secondary },
        }
    }

    /// The controllers once the processor has taken the interrupt of
    /// `vector`: the vector's line is in service, and for a line of the
    /// secondary the cascade line of the primary too. A vector of neither
    /// controller changes nothing.
    pub open spec fn serving(self, vector: u8) -> PicPair {
        if self.secondary.handles(vector) {
            PicPair {
                primary: Pic {
                    in_service: with_bit(self.primary.in_service, CASCADE_LINE),
                    ..self.primary
                },
                secondary: Pic {
                    in_service: with_bit(
                        self.secondary.in_service,
                        (vector - self.secondary.offset) as u8,
                    ),
                    ..self.secondary
                },
            }
        } else if self.primary.handles(vector) {
            PicPair {
                primary: Pic {
                    in_service: with_bit(
                        self.primary.in_service,
                        (vector - self.primary.offset) as u8,
                    ),
                    ..self.primary
                },
                ..self
            }
        } else {
            self
        }
    }

    /// The controllers once the service of `vector` has ended: what
    /// `serving` put in service no longer is.
    pub open spec fn served(self, vector: u8) -> PicPair {
        if self.secondary.handles(vector) {
            PicPair {
                primary: Pic {
                    in_service: without_bit(self.primary.in_service, CASCADE_LINE),
                    ..self.primary
                },
                secondary: Pic {
                    in_service: without_bit(
                        self.secondary.in_service,
                        (vector - self.secondary.offset) as u8,
                    ),
                    ..self.secondary
                },
            }
        } else if self.primary.handles(vector) {
            PicPair {
                primary: Pic {
                    in_service: without_bit(
                        self.primary.in_service,
                        (vector - self.primary.offset) as u8,
                    ),
                    ..self.primary
                },
                ..self
            }
        } else {
            self
        }
    }

    /// The writes that end the service of `vector`: to the secondary
    /// controller first where the vector is one of its lines, and to the
    /// primary in either case, because the secondary's interrupts reach the
    /// processor through the primary. No write for a vector of neither.
    pub open spec fn acknowledgment(self, vector: u8) -> Seq<PortWrite> {
        if self.secondary.handles(vector) {
            seq![
                PortWrite { port: SECONDARY_COMMAND, value: CMD_END_OF_INTERRUPT },
                PortWrite { port: PRIMARY_COMMAND, value: CMD_END_OF_INTERRUPT },
            ]
        } else if self.primary.handles(vector) {
            seq![PortWrite { port: PRIMARY_COMMAND, value: CMD_END_OF_INTERRUPT }]
        } else {
            Seq::empty()
        }
    }

    /// Whether the masks let an interrupt on `line` through (lines 0 to 7
    /// are the primary's, 8 to 15 the secondary's): the line's own bit is
    /// clear, and for a line of the secondary the bit of the cascade line
    /// too.
    pub open spec fn unmasked(self, line: u8) -> bool {
        if line < LINES {
            !bit_is_set(self.primary.mask, line)
        } else if line < 2 * LINES {
            &&& !bit_is_set(self.secondary.mask, (line - LINES) as u8)
            &&& !bit_is_set(self.primary.mask, CASCADE_LINE)
        } else {
            false
        }
    }

    /// Whether an interrupt on `line` is held back by one in service: by
    /// one on the line itself, and for a line of the secondary also by one
    /// on the cascade line.
    pub open spec fn held_back(self, line: u8) -> bool {
        if line < LINES {
            bit_is_set(self.primary.in_service, line)
        } else {
            ||| bit_is_set(self.secondary.in_service, (line - LINES) as u8)
            ||| bit_is_set(self.primary.in_service, CASCADE_LINE)
        }
    }

    /// Whether the controllers would hand an interrupt on `line` to the
    /// processor: the masks let it through, and nothing in service holds it
    /// back.
    pub open spec fn armed(self, line: u8) -> bool {
        self.unmasked(line) && !self.held_back(line)
    }

    /// The vector on which an interrupt on `line` arrives.
    pub open spec fn vector_of(self, line: u8) -> u8 {
        (self.primary.offset + line) as u8
    }

    /// How many of the sixteen lines the two masks leave open.
    pub open spec fn open_lines(self) -> int {
        open_lines(self.primary.mask, LINES as int) + open_lines(self.secondary.mask, LINES as int)
    }
}

/// The two chained controllers, as the driver knows them.
#[derive(Debug, Clone, Copy)]
pub struct ChainedPics {
    pair: PicPair,
}

impl View for ChainedPics {
    type V = PicPair;

    closed spec fn view(&self) -> PicPair {
        self.pair
    }
}

impl ChainedPics {
    #[verifier::type_invariant]
    spec fn well_formed(self) -> bool {
        self.pair.valid()
    }

    /// Whether the two controllers can be given these base offsets.
    pub fn accepts(base_offset_1: u8, base_offset_2: u8) -> (valid: bool)
        ensures
            valid == valid_offsets(base_offset_1, base_offset_2),
    {
        32 <= base_offset_1 && base_offset_1 <= base_offset_2 && base_offset_2 - base_offset_1
            == LINES && base_offset_2 <= u8::MAX - LINES + 1
    }

    /// Sets both controllers up with the given base offsets and leaves every
    /// line masked. Returns the record, and the writes to perform.
    pub fn initialize(base_offset_1: u8, base_offset_2: u8) -> (out: (ChainedPics, Vec<PortWrite>))
        requires
            valid_offsets(base_offset_1, base_offset_2),
        ensures
            out.0@ == PicPair::fresh(base_offset_1, base_offset_2),
            out.1@ == setup_writes(base_offset_1, base_offset_2),
    {
        let primary = Pic {
            offset: base_offset_1,
            command: PRIMARY_COMMAND,
            data: PRIMARY_DATA,
            mask: 0xFF,
            in_service: 0,
        };
        let secondary = Pic {
            offset: base_offset_2,
            command: SECONDARY_COMMAND,
            data: SECONDARY_DATA,
            mask: 0xFF,
            in_service: 0,
        };
        let words: [PortWrite; 8] = [
            PortWrite { port: primary.command, value: CMD_INIT },
            PortWrite { port: secondary.command, value: CMD_INIT },
            PortWrite { port: primary.data, value: primary.offset },
            PortWrite { port: secondary.data, value: secondary.offset },
            PortWrite { port: primary.data, value: 1u8 << CASCADE_LINE },
            PortWrite { port: secondary.data, value: CASCADE_LINE },
            PortWrite { port: primary.data, value: MODE_8086 },
            PortWrite { port: secondary.data, value: MODE_8086 },
        ];
        assert(words@ =~= setup_words(base_offset_1, base_offset_2));
        let mut writes: Vec<PortWrite> = Vec::new();
        let mut sent: usize = 0;
        while sent < 8
            invariant
                sent <= 8,
                words@ == setup_words(base_offset_1, base_offset_2),
                writes@ == paced(words@.take(sent as int)),
            decreases 8 - sent,
        {
            writes.push(words[sent]);
            writes.push(PortWrite { port: WAIT_PORT, value: 0 });
            assert(writes@ =~= paced(words@.take(sent as int + 1)));
            sent += 1;
        }
        assert(words@.take(8) =~= words@);
        writes.push(PortWrite { port: primary.data, value: primary.mask });
        writes.push(PortWrite { port: secondary.data, value: secondary.mask });
        assert(writes@ =~= setup_writes(base_offset_1, base_offset_2));
        (ChainedPics { pair: PicPair { primary, secondary } }, writes)
    }

    /// The driver's record of the controllers. It is valid.
    pub fn pair(&self) -> (pair: PicPair)
        ensures
            pair == self@,
            pair.valid(),
    {
        proof {
            use_type_invariant(self);
        }
        self.pair
    }

    /// Whether `vector` belongs to a line of either controller.
    pub fn handles_interrupt(&self, vector: u8) -> (handled: bool)
        ensures
            handled == (self@.primary.handles(vector) || self@.secondary.handles(vector)),
    {
        self.pair.primary.handles_interrupt(vector) || self.pair.secondary.handles_interrupt(vector)
    }

    /// Sets the two mask registers; a set bit disables its line. Returns the
    /// writes to perform.
    pub fn set_mask(&mut self, mask_primary: u8, mask_secondary: u8) -> (writes: Vec<PortWrite>)
        ensures
            final(self)@ == old(self)@.masked(mask_primary, mask_secondary),
            writes@ == mask_writes(mask_primary, mask_secondary),
    {
        proof {
            use_type_invariant(&*self);
        }
        self.pair.primary.mask = mask_primary;
        self.pair.secondary.mask = mask_secondary;
        let mut writes: Vec<PortWrite> = Vec::new();
        writes.push(PortWrite { port: self.pair.primary.data, value: mask_primary });
        writes.push(PortWrite { port: self.pair.secondary.data, value: mask_secondary });
        assert(writes@ =~= mask_writes(mask_primary, mask_secondary));
        writes
    }

    /// Notes that the processor has taken the interrupt of `vector`: until
    /// the end of its service the line is not armed.
    pub fn begin_service(&mut self, vector: u8)
        ensures
            final(self)@ == old(self)@.serving(vector),
    {
        proof {
            use_type_invariant(&*self);
        }
        if self.pair.secondary.handles_interrupt(vector) {
            let line: u8 = vector - self.pair.secondary.offset;
            self.pair.primary.in_service = self.pair.primary.in_service | (1u8 << CASCADE_LINE);
            self.pair.secondary.in_service = self.pair.secondary.in_service | (1u8 << line);
        } else if self.pair.primary.handles_interrupt(vector) {
            let line: u8 = vector - self.pair.primary.offset;
            self.pair.primary.in_service = self.pair.primary.in_service | (1u8 << line);
        }
    }

    /// Ends the service of `vector`. Returns the writes to perform: none for
    /// a vector of neither controller.
    pub fn end_of_interrupt(&mut self, vector: u8) -> (writes: Vec<PortWrite>)
        ensures
            final(self)@ == old(self)@.served(vector),
            writes@ == old(self)@.acknowledgment(vector),
    {
        proof {
            use_type_invariant(&*self);
        }
        let mut writes: Vec<PortWrite> = Vec::new();
        if self.handles_interrupt(vector) {
            if self.pair.secondary.handles_interrupt(vector) {
                let line: u8 = vector - self.pair.secondary.offset;
                self.pair.secondary.in_service = self.pair.secondary.in_service & !(1u8 << line);
                self.pair.primary.in_service = self.pair.primary.in_service & !(1u8
                    << CASCADE_LINE);
                writes.push(
                    PortWrite { port: self.pair.secondary.command, value: CMD_END_OF_INTERRUPT },
                );
            } else {
                let line: u8 = vector - self.pair.primary.offset;
                self.pair.primary.in_service = self.pair.primary.in_service & !(1u8 << line);
            }
            writes.push(
                PortWrite { port: self.pair.primary.command, value: CMD_END_OF_INTERRUPT },
            );
        }
        assert(writes@ =~= old(self)@.acknowledgment(vector));
        writes
    }

    /// What the controllers do when a device pulls `line`: the vector that
    /// they hand to the processor, or nothing where the line is not armed.
    pub fn request(&self, line: u8) -> (vector: Option<u8>)
        ensures
            vector == if self@.armed(line) {
                Some(self@.vector_of(line))
            } else {
                None
            },
    {
        proof {
            use_type_invariant(self);
        }
        let pair = self.pair;
        let armed = if line < LINES {
            pair.primary.mask & (1u8 << line) == 0 && pair.primary.in_service & (1u8 << line) == 0
        } else if line < 2 * LINES {
            let behind: u8 = line - LINES;
            pair.secondary.mask & (1u8 << behind) == 0 && pair.secondary.in_service & (1u8
                << behind) == 0 && pair.primary.mask & (1u8 << CASCADE_LINE) == 0
                && pair.primary.in_service & (1u8 << CASCADE_LINE) == 0
        } else {
            false
        };
        if armed {
            Some(pair.primary.offset + line)
        } else {
            None
        }
    }
}

/// The number of lines that a mask leaves open, bit by bit.
pub proof fn lemma_open_lines(mask: u8)
    ensures
        open_lines(mask, LINES as int) == (if mask & 0x01 == 0 { 1int } else { 0 }) + (if mask
            & 0x02 == 0 { 1int } else { 0 }) + (if mask & 0x04 == 0 { 1int } else { 0 }) + (if mask
            & 0x08 == 0 { 1int } else { 0 }) + (if mask & 0x10 == 0 { 1int } else { 0 }) + (if mask
            & 0x20 == 0 { 1int } else { 0 }) + (if mask & 0x40 == 0 { 1int } else { 0 }) + (if mask
            & 0x80 == 0 { 1int } else { 0 }),
{
    reveal_with_fuel(open_lines, 9);
    assert(1u8 << 0u8 == 0x01 && 1u8 << 1u8 == 0x02 && 1u8 << 2u8 == 0x04 && 1u8 << 3u8 == 0x08
        && 1u8 << 4u8 == 0x10 && 1u8 << 5u8 == 0x20 && 1u8 << 6u8 == 0x40 && 1u8 << 7u8 == 0x80)
        by (bit_vector);
}

/// Setting and clearing the bit of a line touches that bit and no other,
/// and clearing undoes setting.
pub proof fn lemma_line_bits(register: u8, line: u8, other: u8)
    requires
        line < LINES,
        other < LINES,
    ensures
        bit_is_set(with_bit(register, line), line),
        !bit_is_set(without_bit(register, line), line),
        other != line ==> bit_is_set(with_bit(register, line), other) == bit_is_set(
            register,
            other,
        ),
        other != line ==> bit_is_set(without_bit(register, line), other) == bit_is_set(
            register,
            other,
        ),
        without_bit(with_bit(register, line), line) == without_bit(register, line),
        without_bit(without_bit(register, line), line) == without_bit(register, line),
{
    assert(line < 8 ==> (register | (1u8 << line)) & (1u8 << line) != 0) by (bit_vector);
    assert(line < 8 ==> (register & !(1u8 << line)) & (1u8 << line) == 0) by (bit_vector);
    assert(line < 8 && other < 8 && other != line ==> ((register | (1u8 << line)) & (1u8
        << other) != 0) == (register & (1u8 << other) != 0)) by (bit_vector);
    assert(line < 8 && other < 8 && other != line ==> ((register & !(1u8 << line)) & (1u8
        << other) != 0) == (register & (1u8 << other) != 0)) by (bit_vector);
    assert((register | (1u8 << line)) & !(1u8 << line) == register & !(1u8 << line))
        by (bit_vector);
    assert((register & !(1u8 << line)) & !(1u8 << line) == register & !(1u8 << line))
        by (bit_vector);
}

/// The end of a service undoes its beginning and is the same when
/// repeated. Neither touches a mask, an offset or a port, and after the end
/// the vector's line is out of service.
pub proof fn lemma_service(pair: PicPair, vector: u8)
    requires
        pair.valid(),
    ensures
        pair.serving(vector).served(vector) == pair.served(vector),
        pair.served(vector).served(vector) == pair.served(vector),
        pair.serving(vector).valid(),
        pair.served(vector).valid(),
        pair.serving(vector).masked(pair.primary.mask, pair.secondary.mask) == pair.serving(vector),
        pair.served(vector).masked(pair.primary.mask, pair.secondary.mask) == pair.served(vector),
        pair.primary.handles(vector) ==> !bit_is_set(
            pair.served(vector).primary.in_service,
            (vector - pair.primary.offset) as u8,
        ),
        pair.secondary.handles(vector) ==> !bit_is_set(
            pair.served(vector).secondary.in_service,
            (vector - pair.secondary.offset) as u8,
        ) && !bit_is_set(pair.served(vector).primary.in_service, CASCADE_LINE),
{
    if pair.secondary.handles(vector) {
        lemma_line_bits(pair.primary.in_service, CASCADE_LINE, CASCADE_LINE);
        lemma_line_bits(
            pair.secondary.in_service,
            (vector - pair.secondary.offset) as u8,
            CASCADE_LINE,
        );
    } else if pair.primary.handles(vector) {
        lemma_line_bits(
            pair.primary.in_service,
            (vector - pair.primary.offset) as u8,
            CASCADE_LINE,
        );
    }
}

/// From its interrupt being taken to the end of its service a line is not
/// armed: a handler that forgets the end of service silences its device.
/// After the end of service the line is armed again, unless it is masked.
pub proof fn lemma_arming(pair: PicPair, line: u8)
    requires
        pair.valid(),
        line < 2 * LINES,
    ensures
        !pair.serving(pair.vector_of(line)).armed(line),
        pair.served(pair.vector_of(line)).armed(line) <==> pair.unmasked(line),
{
    if line < LINES {
        lemma_line_bits(pair.primary.in_service, line, line);
    } else {
        lemma_line_bits(pair.primary.in_service, CASCADE_LINE, CASCADE_LINE);
        lemma_line_bits(pair.secondary.in_service, (line - LINES) as u8, CASCADE_LINE);
    }
}

/// The chaining words of the setup: the primary controller is told the
/// cascade line as the bit of that line, which is the byte 4.
pub proof fn lemma_cascade_bit()
    ensures
        1u8 << CASCADE_LINE == 4,
        bit_is_set(1u8 << CASCADE_LINE, CASCADE_LINE),
{
    assert(1u8 << 2u8 == 4 && (1u8 << 2u8) & (1u8 << 2u8) != 0) by (bit_vector);
}

} // verus!
