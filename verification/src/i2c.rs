//! The I2C1 controller of the RP2040 as a bus master: configuration, and the
//! register traffic of one register write and one register read on a device.
use vstd::prelude::*;
use crate::regs::{
    RegOp, is_write_to, writes_to, spec_set_bits, spec_clear_bits, set_bits, clear_bits, write_reg, I2C1_BASE, RESETS_BASE, IC_CON,
    IC_TAR, IC_DATA_CMD, IC_ENABLE, IC_STATUS, IC_FS_SCL_HCNT, IC_FS_SCL_LCNT, IC_FS_SPKLEN, IC_SDA_HOLD,
};
use crate::pin_io::{Pin, pad_ctrl_addr, gpio_ctrl_addr, pin_regs_fit, pad_ctrl_reg, gpio_ctrl_reg};

verus! {

/// Address of the I2C1 enable register.
pub const I2C1_ENABLE: u32 = I2C1_BASE + IC_ENABLE;
/// Address of the I2C1 target address register.
pub const I2C1_TAR: u32 = I2C1_BASE + IC_TAR;
/// Address of the I2C1 data and command register.
pub const I2C1_DATA_CMD: u32 = I2C1_BASE + IC_DATA_CMD;
/// Address of the I2C1 status register.
pub const I2C1_STATUS: u32 = I2C1_BASE + IC_STATUS;

/// The value of a data-and-command register write: bit 10 asks for a RESTART
/// before the byte, bit 9 for a STOP after it, bit 8 makes it a read, and the
/// low byte holds the data.
pub open spec fn cmd_word(restart: bool, stop: bool, read: bool, data: u8) -> u32 {
    ((if restart { 1024int } else { 0 }) + (if stop { 512int } else { 0 }) + (if read { 256int } else { 0 })
        + data) as u32
}

/// Builds a data-and-command word from its flag bits and data byte.
fn data_cmd(restart: bool, stop: bool, read: bool, data: u8) -> (w: u32)
    ensures
        w == cmd_word(restart, stop, read, data),
{
    let r: u32 = if restart { 1 } else { 0 };
    let s: u32 = if stop { 1 } else { 0 };
    let d: u32 = if read { 1 } else { 0 };
    let w: u32 = (r << 10u32) | (s << 9u32) | (d << 8u32) | data as u32;
    assert(w == r * 1024 + s * 512 + d * 256 + data) by (bit_vector)
        requires
            w == (r << 10u32) | (s << 9u32) | (d << 8u32) | data as u32,
            r <= 1,
            s <= 1,
            d <= 1,
    ;
    w
}

/// The writes that make `addr` the target of the next transfers: the
/// controller is disabled, the target address register written, and the
/// controller enabled again.
pub open spec fn target_ops(addr: u8) -> Seq<RegOp> {
    seq![
        spec_clear_bits(I2C1_ENABLE, 1),
        RegOp::Write { addr: I2C1_TAR, value: addr as u32 },
        spec_set_bits(I2C1_ENABLE, 1),
    ]
}

/// The target selection a transfer to `addr` needs when the controller already
/// targets `current`: none when they are the same device.
pub open spec fn select_ops(current: u8, addr: u8) -> Seq<RegOp> {
    if addr != current {
        target_ops(addr)
    } else {
        seq![]
    }
}

/// All register traffic of writing `val` to register `reg` of device `addr`,
/// while the controller targets `current`: the register address with a
/// RESTART, the value with a STOP, then a wait until the controller is idle.
pub open spec fn write_ops(current: u8, addr: u8, reg: u8, val: u8) -> Seq<RegOp> {
    select_ops(current, addr) + seq![
        RegOp::Write { addr: I2C1_DATA_CMD, value: cmd_word(true, false, false, reg) },
        RegOp::Write { addr: I2C1_DATA_CMD, value: cmd_word(false, true, false, val) },
        RegOp::WaitUntil { addr: I2C1_STATUS, mask: 1, expected: 0 },
    ]
}

/// The traffic for byte `i` of a read of `len` bytes: a read command (with a
/// STOP after the last byte), a wait until the receive FIFO holds data, and
/// the fetch of the byte into entry `i` of the buffer.
pub open spec fn byte_ops(reg: u8, len: nat, i: nat) -> Seq<RegOp> {
    seq![
        RegOp::Write { addr: I2C1_DATA_CMD, value: cmd_word(false, i + 1 == len, true, reg) },
        RegOp::WaitUntil { addr: I2C1_STATUS, mask: 8, expected: 8 },
        RegOp::ReadByte { addr: I2C1_DATA_CMD, slot: i as usize },
    ]
}

/// The traffic for the first `n` bytes of a read of `len` bytes.
pub open spec fn bytes_ops(reg: u8, len: nat, n: nat) -> Seq<RegOp>
    decreases n,
{
    if n == 0 {
        seq![]
    } else {
        bytes_ops(reg, len, (n - 1) as nat) + byte_ops(reg, len, (n - 1) as nat)
    }
}

/// All register traffic of reading `len` bytes from device `addr`, starting at
/// register `reg`, while the controller targets `current`.
pub open spec fn read_ops(current: u8, addr: u8, reg: u8, len: nat) -> Seq<RegOp> {
    select_ops(current, addr) + seq![
        RegOp::Write { addr: I2C1_DATA_CMD, value: cmd_word(true, false, false, reg) },
    ] + bytes_ops(reg, len, len)
}

/// Every entry of `bytes_ops(reg, len, n)` in place: entry `3i` is the read
/// command of byte `i`, `3i + 1` the wait for it, `3i + 2` its fetch into slot `i`.
pub proof fn lemma_bytes_ops_layout(reg: u8, len: nat, n: nat)
    ensures
        bytes_ops(reg, len, n).len() == 3 * n,
        forall|i: int| #![trigger bytes_ops(reg, len, n)[3 * i]] 0 <= i < n ==> {
            &&& bytes_ops(reg, len, n)[3 * i] == RegOp::Write { addr: I2C1_DATA_CMD, value: cmd_word(false, i + 1 == len, true, reg) }
            &&& bytes_ops(reg, len, n)[3 * i + 1] == RegOp::WaitUntil { addr: I2C1_STATUS, mask: 8, expected: 8 }
            &&& bytes_ops(reg, len, n)[3 * i + 2] == RegOp::ReadByte { addr: I2C1_DATA_CMD, slot: i as usize }
        },
    decreases n,
{
    if n > 0 {
        lemma_bytes_ops_layout(reg, len, (n - 1) as nat);
        let prev = bytes_ops(reg, len, (n - 1) as nat);
        assert forall|i: int| #![trigger bytes_ops(reg, len, n)[3 * i]] 0 <= i < n implies {
            &&& bytes_ops(reg, len, n)[3 * i] == RegOp::Write { addr: I2C1_DATA_CMD, value: cmd_word(false, i + 1 == len, true, reg) }
            &&& bytes_ops(reg, len, n)[3 * i + 1] == RegOp::WaitUntil { addr: I2C1_STATUS, mask: 8, expected: 8 }
            &&& bytes_ops(reg, len, n)[3 * i + 2] == RegOp::ReadByte { addr: I2C1_DATA_CMD, slot: i as usize }
        } by {
            if i < n - 1 {
                assert(prev[3 * i] == bytes_ops(reg, len, n)[3 * i]);
                assert(prev[3 * i + 1] == bytes_ops(reg, len, n)[3 * i + 1]);
                assert(prev[3 * i + 2] == bytes_ops(reg, len, n)[3 * i + 2]);
            }
        }
    }
}

/// Law: a read of `len` bytes fetches each byte exactly once and in order,
/// byte `i` into slot `i`, and releases the bus with a STOP after the last
/// byte and after no other.
pub proof fn lemma_read_fetches_each_byte_once(current: u8, addr: u8, reg: u8, len: nat, i: int)
    requires
        0 <= i < len,
    ensures
        ({
            let ops = read_ops(current, addr, reg, len);
            let base = select_ops(current, addr).len() + 1;
            &&& ops.len() == base + 3 * len
            &&& ops[base + 3 * i] == RegOp::Write { addr: I2C1_DATA_CMD, value: cmd_word(false, i + 1 == len, true, reg) }
            &&& ops[base + 3 * i + 1] == RegOp::WaitUntil { addr: I2C1_STATUS, mask: 8, expected: 8 }
            &&& ops[base + 3 * i + 2] == RegOp::ReadByte { addr: I2C1_DATA_CMD, slot: i as usize }
        }),
        (cmd_word(false, i + 1 == len, true, reg) & 512u32 != 0) == (i + 1 == len),
{
    lemma_bytes_ops_layout(reg, len, len);
    assert(bytes_ops(reg, len, len)[3 * i] == RegOp::Write { addr: I2C1_DATA_CMD, value: cmd_word(false, i + 1 == len, true, reg) });
    let w = cmd_word(false, i + 1 == len, true, reg);
    if i + 1 == len {
        assert(w == 768 + reg);
        assert(((768u32 + (reg as u32)) as u32) & 512u32 != 0) by (bit_vector);
    } else {
        assert(w == 256 + reg);
        assert(((256u32 + (reg as u32)) as u32) & 512u32 == 0) by (bit_vector);
    }
}

/// No entry of `bytes_ops` writes the target address register.
proof fn lemma_bytes_ops_keep_target(reg: u8, len: nat, n: nat)
    ensures
        !writes_to(bytes_ops(reg, len, n), I2C1_TAR),
{
    lemma_bytes_ops_layout(reg, len, n);
    let ops = bytes_ops(reg, len, n);
    assert forall|j: int| 0 <= j < ops.len() implies !#[trigger] is_write_to(ops[j], I2C1_TAR) by {
        let i = j / 3;
        assert(j == 3 * i || j == 3 * i + 1 || j == 3 * i + 2);
        assert(ops[3 * i] == RegOp::Write { addr: I2C1_DATA_CMD, value: cmd_word(false, i + 1 == len, true, reg) });
    }
}

/// Law: a transfer reprograms the target address register exactly when it goes
/// to another device than the one the controller targets, and afterwards the
/// controller targets the device of the transfer (see `I2C1::write` and
/// `I2C1::read`).
pub proof fn lemma_target_written_iff_new_device(current: u8, addr: u8, reg: u8, val: u8, len: nat)
    ensures
        writes_to(write_ops(current, addr, reg, val), I2C1_TAR) == (addr != current),
        writes_to(read_ops(current, addr, reg, len), I2C1_TAR) == (addr != current),
{
    let w = write_ops(current, addr, reg, val);
    let r = read_ops(current, addr, reg, len);
    lemma_bytes_ops_keep_target(reg, len, len);
    let b = bytes_ops(reg, len, len);
    if addr != current {
        assert(is_write_to(w[1], I2C1_TAR));
        assert(is_write_to(r[1], I2C1_TAR));
    } else {
        assert(w =~= seq![
            RegOp::Write { addr: I2C1_DATA_CMD, value: cmd_word(true, false, false, reg) },
            RegOp::Write { addr: I2C1_DATA_CMD, value: cmd_word(false, true, false, val) },
            RegOp::WaitUntil { addr: I2C1_STATUS, mask: 1, expected: 0 },
        ]);
        assert forall|j: int| 0 <= j < w.len() implies !#[trigger] is_write_to(w[j], I2C1_TAR) by {}
        assert forall|j: int| 0 <= j < r.len() implies !#[trigger] is_write_to(r[j], I2C1_TAR) by {
            if j > 0 {
                assert(r[j] == b[j - 1]);
                assert(!is_write_to(b[j - 1], I2C1_TAR));
            }
        }
    }
}

/// One transfer of the controller: a register write or a register read.
pub enum Transfer {
    /// `I2C1::write(addr, reg, val)`.
    Write { addr: u8, reg: u8, val: u8 },
    /// `I2C1::read(addr, reg, len)`.
    Read { addr: u8, reg: u8, len: nat },
}

/// The device a transfer goes to.
pub open spec fn transfer_addr(t: Transfer) -> u8 {
    match t {
        Transfer::Write { addr, .. } => addr,
        Transfer::Read { addr, .. } => addr,
    }
}

/// The register traffic of transfer `t` while the controller targets `current`
/// (the lists that `I2C1::write` and `I2C1::read` return).
pub open spec fn transfer_ops(current: u8, t: Transfer) -> Seq<RegOp> {
    match t {
        Transfer::Write { addr, reg, val } => write_ops(current, addr, reg, val),
        Transfer::Read { addr, reg, len } => read_ops(current, addr, reg, len),
    }
}

/// The device the controller targets after the transfers `ts`, starting from `start`.
pub open spec fn session_target(start: u8, ts: Seq<Transfer>) -> u8 {
    if ts.len() == 0 {
        start
    } else {
        transfer_addr(ts.last())
    }
}

/// All register traffic of the transfers `ts`, in order, starting from target `start`.
pub open spec fn session_ops(start: u8, ts: Seq<Transfer>) -> Seq<RegOp>
    decreases ts.len(),
{
    if ts.len() == 0 {
        seq![]
    } else {
        session_ops(start, ts.drop_last()) + transfer_ops(session_target(start, ts.drop_last()), ts.last())
    }
}

/// The value of the last write to the target address register in `ops`, if any.
pub open spec fn last_target_write(ops: Seq<RegOp>) -> Option<u32>
    decreases ops.len(),
{
    if ops.len() == 0 {
        None
    } else {
        match ops.last() {
            RegOp::Write { addr, value } => if addr == I2C1_TAR {
                Some(value)
            } else {
                last_target_write(ops.drop_last())
            },
            _ => last_target_write(ops.drop_last()),
        }
    }
}

/// Every write to the target address register in `ops` is directly preceded by
/// the disabling of the controller and directly followed by its enabling.
pub open spec fn target_writes_guarded(ops: Seq<RegOp>) -> bool {
    forall|i: int|
        0 <= i < ops.len() && #[trigger] is_write_to(ops[i], I2C1_TAR) ==> {
            &&& 0 < i < ops.len() - 1
            &&& ops[i - 1] == spec_clear_bits(I2C1_ENABLE, 1)
            &&& ops[i + 1] == spec_set_bits(I2C1_ENABLE, 1)
        }
}

proof fn lemma_last_target_write_none(ops: Seq<RegOp>)
    requires
        !writes_to(ops, I2C1_TAR),
    ensures
        last_target_write(ops) == None::<u32>,
    decreases ops.len(),
{
    if ops.len() > 0 {
        assert(!is_write_to(ops[ops.len() - 1], I2C1_TAR));
        assert forall|j: int| 0 <= j < ops.drop_last().len() implies !#[trigger] is_write_to(ops.drop_last()[j], I2C1_TAR) by {
            assert(ops.drop_last()[j] == ops[j]);
        }
        lemma_last_target_write_none(ops.drop_last());
    }
}

proof fn lemma_last_target_write_concat(a: Seq<RegOp>, b: Seq<RegOp>)
    ensures
        last_target_write(a + b) == (if last_target_write(b) is Some { last_target_write(b) } else { last_target_write(a) }),
    decreases b.len(),
{
    if b.len() == 0 {
        assert(a + b =~= a);
    } else {
        assert((a + b).drop_last() =~= a + b.drop_last());
        assert((a + b).last() == b.last());
        lemma_last_target_write_concat(a, b.drop_last());
    }
}

proof fn lemma_guarded_concat(a: Seq<RegOp>, b: Seq<RegOp>)
    requires
        target_writes_guarded(a),
        target_writes_guarded(b),
    ensures
        target_writes_guarded(a + b),
{
    let s = a + b;
    assert forall|i: int| 0 <= i < s.len() && #[trigger] is_write_to(s[i], I2C1_TAR) implies {
        &&& 0 < i < s.len() - 1
        &&& s[i - 1] == spec_clear_bits(I2C1_ENABLE, 1)
        &&& s[i + 1] == spec_set_bits(I2C1_ENABLE, 1)
    } by {
        if i < a.len() {
            assert(s[i] == a[i]);
            assert(is_write_to(a[i], I2C1_TAR));
        } else {
            assert(s[i] == b[i - a.len()]);
            assert(is_write_to(b[i - a.len()], I2C1_TAR));
        }
    }
}

proof fn lemma_unwritten_guarded(ops: Seq<RegOp>)
    requires
        !writes_to(ops, I2C1_TAR),
    ensures
        target_writes_guarded(ops),
{
}

/// One transfer: its last write to the target register stores the new device
/// when it changes device, there is none otherwise, and each such write is
/// guarded by the disabling and enabling of the controller.
proof fn lemma_transfer_target(current: u8, t: Transfer)
    ensures
        last_target_write(transfer_ops(current, t)) == (if transfer_addr(t) != current {
            Some(transfer_addr(t) as u32)
        } else {
            None::<u32>
        }),
        target_writes_guarded(transfer_ops(current, t)),
{
    let addr = transfer_addr(t);
    let sel = select_ops(current, addr);
    let (rest, ops) = match t {
        Transfer::Write { addr, reg, val } => {
            let rest = seq![
                RegOp::Write { addr: I2C1_DATA_CMD, value: cmd_word(true, false, false, reg) },
                RegOp::Write { addr: I2C1_DATA_CMD, value: cmd_word(false, true, false, val) },
                RegOp::WaitUntil { addr: I2C1_STATUS, mask: 1, expected: 0 },
            ];
            assert forall|j: int| 0 <= j < rest.len() implies !#[trigger] is_write_to(rest[j], I2C1_TAR) by {}
            (rest, write_ops(current, addr, reg, val))
        },
        Transfer::Read { addr, reg, len } => {
            let head = seq![RegOp::Write { addr: I2C1_DATA_CMD, value: cmd_word(true, false, false, reg) }];
            let rest = head + bytes_ops(reg, len, len);
            lemma_bytes_ops_keep_target(reg, len, len);
            assert forall|j: int| 0 <= j < rest.len() implies !#[trigger] is_write_to(rest[j], I2C1_TAR) by {
                if j > 0 {
                    assert(rest[j] == bytes_ops(reg, len, len)[j - 1]);
                }
            }
            assert(read_ops(current, addr, reg, len) =~= sel + rest);
            (rest, read_ops(current, addr, reg, len))
        },
    };
    assert(ops =~= sel + rest);
    assert(transfer_ops(current, t) == ops);
    lemma_last_target_write_none(rest);
    lemma_unwritten_guarded(rest);
    lemma_last_target_write_concat(sel, rest);
    if addr != current {
        let tops = target_ops(addr);
        assert(tops.last() == spec_set_bits(I2C1_ENABLE, 1));
        assert(last_target_write(tops) == last_target_write(tops.drop_last()));
        assert(tops.drop_last().last() == RegOp::Write { addr: I2C1_TAR, value: addr as u32 });
        assert(last_target_write(tops.drop_last()) == Some(addr as u32));
        assert(sel == tops);
        assert(target_writes_guarded(tops)) by {
            assert forall|i: int| 0 <= i < tops.len() && #[trigger] is_write_to(tops[i], I2C1_TAR) implies {
                &&& 0 < i < tops.len() - 1
                &&& tops[i - 1] == spec_clear_bits(I2C1_ENABLE, 1)
                &&& tops[i + 1] == spec_set_bits(I2C1_ENABLE, 1)
            } by {
                assert(i == 1);
            }
        }
    } else {
        assert(sel =~= Seq::<RegOp>::empty());
        lemma_last_target_write_none(sel);
    }
    lemma_guarded_concat(sel, rest);
}

/// Law: over any run of writes and reads on a controller, the device it targets
/// afterwards is the device of the last transfer (or the starting one after
/// none), and that is the value last stored in the target address register
/// whenever the run stored one; every such store lies between a disabling
/// and an enabling of the controller.
pub proof fn lemma_session_target(start: u8, ts: Seq<Transfer>)
    ensures
        session_target(start, ts) == (match last_target_write(session_ops(start, ts)) {
            Some(v) => v as u8,
            None => start,
        }),
        last_target_write(session_ops(start, ts)) is Some ==> last_target_write(session_ops(start, ts))
            == Some(session_target(start, ts) as u32),
        target_writes_guarded(session_ops(start, ts)),
    decreases ts.len(),
{
    if ts.len() > 0 {
        let prev = ts.drop_last();
        let cur = session_target(start, prev);
        lemma_session_target(start, prev);
        lemma_transfer_target(cur, ts.last());
        lemma_last_target_write_concat(session_ops(start, prev), transfer_ops(cur, ts.last()));
        lemma_guarded_concat(session_ops(start, prev), transfer_ops(cur, ts.last()));
    }
}

/// The value a register write stores (0 for any other operation).
pub open spec fn write_value(op: RegOp) -> u32 {
    match op {
        RegOp::Write { value, .. } => value,
        _ => 0,
    }
}

/// Law: what the timing registers get, for every input in range.  The high
/// and low counts add up to the bit period, which is `sys_clk_freq /
/// baudrate` rounded to the nearest cycle (halves up); the low count is three
/// fifths of the period rounded down; the spike filter is a sixteenth of the
/// low count rounded down, at least 1; the SDA hold count is one more than
/// the 300 ns (below 1 MHz) or 150 ns (from 1 MHz) hold time in cycles,
/// rounded down, and only the low half of its register changes.
pub proof fn lemma_timing_relations(sys_clk_freq: u32, baudrate: u32)
    requires
        timing_in_range(sys_clk_freq, baudrate),
    ensures
        ({
            let ops = timing_ops(sys_clk_freq, baudrate);
            let h = write_value(ops[0]) as int;
            let l = write_value(ops[1]) as int;
            let k = write_value(ops[2]) as int;
            let period = h + l;
            &&& ops.len() == 4
            &&& is_write_to(ops[0], (I2C1_BASE + 0x1c) as u32)
            &&& is_write_to(ops[1], (I2C1_BASE + 0x20) as u32)
            &&& is_write_to(ops[2], (I2C1_BASE + 0xa0) as u32)
            &&& baudrate * period <= sys_clk_freq + baudrate / 2 < baudrate * (period + 1)
            &&& 5 * l <= 3 * period < 5 * l + 5
            &&& l < 16 ==> k == 1
            &&& l >= 16 ==> 16 * k <= l < 16 * k + 16
            &&& ops[3] matches RegOp::Update { addr, keep, set } && addr == I2C1_BASE + 0x7c
                && keep == 0xffff0000u32
                && (baudrate < 1_000_000 ==> 10_000_000 * (set - 1) <= 3 * sys_clk_freq < 10_000_000 * set)
                && (baudrate >= 1_000_000 ==> 20_000_000 * (set - 1) <= 3 * sys_clk_freq < 20_000_000 * set)
        }),
{
    let x = sys_clk_freq + baudrate / 2;
    let b = baudrate as int;
    let p = scl_period(sys_clk_freq, baudrate);
    vstd::arithmetic::div_mod::lemma_fundamental_div_mod(x, b);
    vstd::arithmetic::div_mod::lemma_mod_pos_bound(x, b);
    assert(p == x / b);
    assert(b * p <= x < b * (p + 1)) by (nonlinear_arith)
        requires
            x == b * p + x % b,
            0 <= x % b < b,
    ;
    assert(p >= 0) by (nonlinear_arith)
        requires
            x >= 0,
            b > 0,
            p == x / b,
    ;
    let l = scl_lcnt(sys_clk_freq, baudrate);
    assert(l == p * 3 / 5);
    assert(0 <= l <= p);
    assert(5 * l <= 3 * p < 5 * l + 5);
    let y = 3 * (sys_clk_freq as int);
    let hold = sda_hold(sys_clk_freq, baudrate);
    assert(0 <= hold - 1 <= y);
}

/// The RESTART flag (bit 10) of a data-and-command word.
pub open spec fn cmd_restart(w: u32) -> bool {
    (w >> 10u32) & 1 == 1
}

/// The STOP flag (bit 9) of a data-and-command word.
pub open spec fn cmd_stop(w: u32) -> bool {
    (w >> 9u32) & 1 == 1
}

/// The read flag (bit 8) of a data-and-command word.
pub open spec fn cmd_read(w: u32) -> bool {
    (w >> 8u32) & 1 == 1
}

/// The data byte (bits 7..0) of a data-and-command word.
pub open spec fn cmd_data(w: u32) -> u32 {
    w & 0xff
}

/// Law: a command word carries exactly the flags and the data byte it is
/// built from, in the bits the controller reads them from, and nothing above
/// bit 10.
pub proof fn lemma_cmd_word_fields(restart: bool, stop: bool, read: bool, data: u8)
    ensures
        cmd_restart(cmd_word(restart, stop, read, data)) == restart,
        cmd_stop(cmd_word(restart, stop, read, data)) == stop,
        cmd_read(cmd_word(restart, stop, read, data)) == read,
        cmd_data(cmd_word(restart, stop, read, data)) == data,
        cmd_word(restart, stop, read, data) < 2048,
{
    let r: u32 = if restart { 1 } else { 0 };
    let s: u32 = if stop { 1 } else { 0 };
    let d: u32 = if read { 1 } else { 0 };
    let x: u32 = data as u32;
    let w = cmd_word(restart, stop, read, data);
    assert(w == r * 1024 + s * 512 + d * 256 + x);
    assert((w >> 10u32) & 1 == r && (w >> 9u32) & 1 == s && (w >> 8u32) & 1 == d && w & 0xff == x && w < 2048)
        by (bit_vector)
        requires
            w == r * 1024 + s * 512 + d * 256 + x,
            r <= 1,
            s <= 1,
            d <= 1,
            x < 256,
    ;
}

/// Law: a register write, after any target selection, sends the register
/// address with a RESTART and no STOP, then the value with a STOP, both as
/// writes, then waits until the controller's activity bit (bit 0 of the
/// status) is clear.
pub proof fn lemma_write_transfer_shape(current: u8, addr: u8, reg: u8, val: u8)
    ensures
        ({
            let ops = write_ops(current, addr, reg, val);
            let n = select_ops(current, addr).len() as int;
            let w1 = write_value(ops[n]);
            let w2 = write_value(ops[n + 1]);
            &&& ops.len() == n + 3
            &&& is_write_to(ops[n], I2C1_DATA_CMD) && cmd_restart(w1) && !cmd_stop(w1) && !cmd_read(w1)
                && cmd_data(w1) == reg
            &&& is_write_to(ops[n + 1], I2C1_DATA_CMD) && !cmd_restart(w2) && cmd_stop(w2) && !cmd_read(w2)
                && cmd_data(w2) == val
            &&& ops[n + 2] == RegOp::WaitUntil { addr: I2C1_STATUS, mask: 1, expected: 0 }
        }),
{
    lemma_cmd_word_fields(true, false, false, reg);
    lemma_cmd_word_fields(false, true, false, val);
}

/// Law: a read of `len` bytes, after any target selection, sends the start
/// register with a RESTART and no STOP as a write; then, for each byte, a
/// read command without RESTART, with a STOP exactly for the last byte, a
/// wait until the receive FIFO is not empty (status bit 3 set), and the
/// fetch of the byte into its slot.
pub proof fn lemma_read_transfer_shape(current: u8, addr: u8, reg: u8, len: nat, i: int)
    requires
        0 <= i < len,
    ensures
        ({
            let ops = read_ops(current, addr, reg, len);
            let n = select_ops(current, addr).len() as int;
            let w0 = write_value(ops[n]);
            let wi = write_value(ops[n + 1 + 3 * i]);
            &&& ops.len() == n + 1 + 3 * len
            &&& is_write_to(ops[n], I2C1_DATA_CMD) && cmd_restart(w0) && !cmd_stop(w0) && !cmd_read(w0)
                && cmd_data(w0) == reg
            &&& is_write_to(ops[n + 1 + 3 * i], I2C1_DATA_CMD) && !cmd_restart(wi) && cmd_read(wi)
                && cmd_stop(wi) == (i == len - 1)
            &&& ops[n + 2 + 3 * i] == RegOp::WaitUntil { addr: I2C1_STATUS, mask: 8, expected: 8 }
            &&& ops[n + 3 + 3 * i] == RegOp::ReadByte { addr: I2C1_DATA_CMD, slot: i as usize }
        }),
{
    lemma_read_fetches_each_byte_once(current, addr, reg, len, i);
    lemma_cmd_word_fields(true, false, false, reg);
    lemma_cmd_word_fields(false, i + 1 == len, true, reg);
}

/// Law: the configuration of the controller.  It is reset and released
/// (reset bit 4 of RESETS); each pin's pad gets input enabled (bit 6),
/// pull-up (bit 3) and Schmitt trigger (bit 1), with output disable (bit 7),
/// pull-down (bit 2) and fast slew (bit 0) off; each pin is given to I2C
/// (function 3); with the controller disabled, it is made a master (bit 0)
/// with its slave side disabled (bit 6), standard speed (bits 2..1 = 1) and
/// 7-bit addresses (bit 4 clear); the timing for 400 kHz at 125 MHz follows;
/// the controller is enabled last.
pub proof fn lemma_init_configuration(sda: u32, scl: u32)
    ensures
        ({
            let ops = init_ops(sda, scl);
            let pad = write_value(ops[2]);
            let con = write_value(ops[7]);
            &&& ops.len() == 13
            &&& ops[0] == spec_set_bits(RESETS_BASE, 1u32 << 4u32)
            &&& ops[1] == spec_clear_bits(RESETS_BASE, 1u32 << 4u32)
            &&& is_write_to(ops[2], pad_ctrl_addr(sda) as u32) && is_write_to(ops[3], pad_ctrl_addr(scl) as u32)
            &&& write_value(ops[3]) == pad
            &&& pad & (1u32 << 6u32) != 0 && pad & (1u32 << 3u32) != 0 && pad & (1u32 << 1u32) != 0
            &&& pad & (1u32 << 7u32) == 0 && pad & (1u32 << 2u32) == 0 && pad & 1u32 == 0
            &&& ops[4] == RegOp::Write { addr: gpio_ctrl_addr(sda) as u32, value: 3 }
            &&& ops[5] == RegOp::Write { addr: gpio_ctrl_addr(scl) as u32, value: 3 }
            &&& ops[6] == spec_clear_bits(I2C1_ENABLE, 1)
            &&& is_write_to(ops[7], (I2C1_BASE + IC_CON) as u32)
            &&& con & 1u32 != 0 && con & (1u32 << 6u32) != 0 && (con >> 1u32) & 3u32 == 1 && con & (1u32 << 4u32) == 0
            &&& ops.subrange(8, 12) == timing_ops(125_000_000, 400_000)
            &&& ops[12] == spec_set_bits(I2C1_ENABLE, 1)
        }),
{
    let ops = init_ops(sda, scl);
    assert(ops.subrange(8, 12) =~= timing_ops(125_000_000, 400_000));
    assert(0x4au32 & (1u32 << 6u32) != 0 && 0x4au32 & (1u32 << 3u32) != 0 && 0x4au32 & (1u32 << 1u32) != 0
        && 0x4au32 & (1u32 << 7u32) == 0 && 0x4au32 & (1u32 << 2u32) == 0 && 0x4au32 & 1u32 == 0) by (bit_vector);
    assert(0x43u32 & 1u32 != 0 && 0x43u32 & (1u32 << 6u32) != 0 && (0x43u32 >> 1u32) & 3u32 == 1
        && 0x43u32 & (1u32 << 4u32) == 0) by (bit_vector);
}

/// The rounded number of system clock cycles of one bit at `baudrate`.
pub open spec fn scl_period(sys_clk_freq: u32, baudrate: u32) -> int {
    (sys_clk_freq + baudrate / 2) / baudrate as int
}

/// Cycles of SCL low: three fifths of the period, rounded down.
pub open spec fn scl_lcnt(sys_clk_freq: u32, baudrate: u32) -> int {
    scl_period(sys_clk_freq, baudrate) * 3 / 5
}

/// Cycles of SCL high: the rest of the period.
pub open spec fn scl_hcnt(sys_clk_freq: u32, baudrate: u32) -> int {
    scl_period(sys_clk_freq, baudrate) - scl_lcnt(sys_clk_freq, baudrate)
}

/// Length of the spike filter: a sixteenth of the low count, at least 1.
pub open spec fn spike_len(sys_clk_freq: u32, baudrate: u32) -> int {
    if scl_lcnt(sys_clk_freq, baudrate) < 16 {
        1
    } else {
        scl_lcnt(sys_clk_freq, baudrate) / 16
    }
}

/// SDA hold time in system clock cycles: 300 ns below 1 MHz, 150 ns above,
/// plus one cycle.
pub open spec fn sda_hold(sys_clk_freq: u32, baudrate: u32) -> int {
    if baudrate < 1_000_000 {
        sys_clk_freq * 3 / 10_000_000 + 1
    } else {
        sys_clk_freq * 3 / 20_000_000 + 1
    }
}

/// The inputs on which the timing computation neither divides by zero nor
/// overflows 32 bits.
pub open spec fn timing_in_range(sys_clk_freq: u32, baudrate: u32) -> bool {
    &&& baudrate > 0
    &&& sys_clk_freq + baudrate / 2 <= u32::MAX
    &&& scl_period(sys_clk_freq, baudrate) * 3 <= u32::MAX
    &&& sys_clk_freq * 3 <= u32::MAX
}

/// The writes of the timing registers: high count, low count, spike filter,
/// and the hold time in the low half of the SDA hold register (its high half kept).
pub open spec fn timing_ops(sys_clk_freq: u32, baudrate: u32) -> Seq<RegOp> {
    seq![
        RegOp::Write { addr: (I2C1_BASE + IC_FS_SCL_HCNT) as u32, value: scl_hcnt(sys_clk_freq, baudrate) as u32 },
        RegOp::Write { addr: (I2C1_BASE + IC_FS_SCL_LCNT) as u32, value: scl_lcnt(sys_clk_freq, baudrate) as u32 },
        RegOp::Write { addr: (I2C1_BASE + IC_FS_SPKLEN) as u32, value: spike_len(sys_clk_freq, baudrate) as u32 },
        RegOp::Update {
            addr: (I2C1_BASE + IC_SDA_HOLD) as u32,
            keep: 0xffff0000u32,
            set: sda_hold(sys_clk_freq, baudrate) as u32,
        },
    ]
}

/// Computes the SCL high and low counts, the spike filter length and the SDA
/// hold time for `baudrate` at system clock `sys_clk_freq`, and returns the
/// register writes that program them.
pub fn set_cnts(sys_clk_freq: u32, baudrate: u32) -> (ops: Vec<RegOp>)
    requires
        timing_in_range(sys_clk_freq, baudrate),
    ensures
        ops@ == timing_ops(sys_clk_freq, baudrate),
{
    let period = (sys_clk_freq + baudrate / 2) / baudrate;
    let lcnt = period * 3 / 5;
    let hcnt = period - lcnt;

    let spklen: u32 = if lcnt < 16 { 1 } else { lcnt / 16 };

    let sda_tx_hold_count: u32 = if baudrate < 1_000_000 {
        ((sys_clk_freq * 3) / 10_000_000) + 1
    } else {
        ((sys_clk_freq * 3) / 20_000_000) + 1
    };

    let mut ops: Vec<RegOp> = Vec::new();
    ops.push(RegOp::Write { addr: I2C1_BASE + IC_FS_SCL_HCNT, value: hcnt });
    ops.push(RegOp::Write { addr: I2C1_BASE + IC_FS_SCL_LCNT, value: lcnt });
    ops.push(RegOp::Write { addr: I2C1_BASE + IC_FS_SPKLEN, value: spklen });
    ops.push(RegOp::Update { addr: I2C1_BASE + IC_SDA_HOLD, keep: 0xffff0000u32, set: sda_tx_hold_count });
    ops
}

/// The pad setting of an I2C pin: input enabled (bit 6), pull-up (bit 3),
/// Schmitt trigger (bit 1), and SLEWFAST (bit 0) clear, so the slew rate is limited.
pub const I2C_PAD_BITS: u32 = 0x4au32;

/// The configuration of I2C1: master, slave disabled, standard speed, 7-bit addressing.
pub const I2C_CON_BITS: u32 = 0x43u32;

/// The full configuration of I2C1 on pins `sda` and `scl` at 400 kHz from a
/// 125 MHz system clock.
pub open spec fn init_ops(sda: u32, scl: u32) -> Seq<RegOp> {
    seq![
        spec_set_bits(RESETS_BASE, 1u32 << 4u32),
        spec_clear_bits(RESETS_BASE, 1u32 << 4u32),
        RegOp::Write { addr: pad_ctrl_addr(sda) as u32, value: I2C_PAD_BITS },
        RegOp::Write { addr: pad_ctrl_addr(scl) as u32, value: I2C_PAD_BITS },
        RegOp::Write { addr: gpio_ctrl_addr(sda) as u32, value: 3 },
        RegOp::Write { addr: gpio_ctrl_addr(scl) as u32, value: 3 },
        spec_clear_bits(I2C1_ENABLE, 1),
        RegOp::Write { addr: (I2C1_BASE + IC_CON) as u32, value: I2C_CON_BITS },
    ] + timing_ops(125_000_000, 400_000) + seq![spec_set_bits(I2C1_ENABLE, 1)]
}

/// The I2C1 controller, on two pins, with the device address it currently targets.
pub struct I2C1 {
    address: u8,
    sda: Pin,
    scl: Pin,
}

impl I2C1 {
    /// The device address the controller currently targets.
    pub closed spec fn target(&self) -> u8 {
        self.address
    }

    /// The data pin.
    pub closed spec fn sda_pin(&self) -> u32 {
        self.sda.pin_num
    }

    /// The clock pin.
    pub closed spec fn scl_pin(&self) -> u32 {
        self.scl.pin_num
    }

    /// A controller on `sda` and `scl` that targets address 0.
    pub fn new(sda: Pin, scl: Pin) -> (r: Self)
        ensures
            r.target() == 0,
            r.sda_pin() == sda.pin_num,
            r.scl_pin() == scl.pin_num,
    {
        I2C1 { address: 0u8, sda: sda, scl: scl }
    }

    /// The device address the controller currently targets.
    pub fn address(&self) -> (a: u8)
        ensures
            a == self.target(),
    {
        self.address
    }

    /// The register writes that reset the controller, route its two pins to
    /// it and configure it for 400 kHz.
    pub fn init(&self) -> (ops: Vec<RegOp>)
        requires
            pin_regs_fit(self.sda_pin()),
            pin_regs_fit(self.scl_pin()),
        ensures
            ops@ == init_ops(self.sda_pin(), self.scl_pin()),
    {
        let mut ops: Vec<RegOp> = Vec::new();
        ops.push(set_bits(RESETS_BASE, 1u32 << 4u32));
        ops.push(clear_bits(RESETS_BASE, 1u32 << 4u32));

        // Input enable (bit 6), pull-up (bit 3), Schmitt trigger (bit 1); SLEWFAST
        // (bit 0) stays 0, so the slew rate is limited.
        let the_bits: u32 = (1u32 << 6u32) | (1u32 << 3u32) | (1u32 << 1u32);
        assert((1u32 << 6u32) | (1u32 << 3u32) | (1u32 << 1u32) == 0x4au32) by (bit_vector);
        ops.push(write_reg(pad_ctrl_reg(self.sda.pin_num), the_bits));
        ops.push(write_reg(pad_ctrl_reg(self.scl.pin_num), the_bits));

        ops.push(write_reg(gpio_ctrl_reg(self.sda.pin_num), 3));
        ops.push(write_reg(gpio_ctrl_reg(self.scl.pin_num), 3));

        ops.push(clear_bits(I2C1_ENABLE, 0x0000_0001));

        let the_bits: u32 = (1u32 << 0u32) | (1u32 << 6u32) | (1u32 << 1u32) | (0u32 << 4u32);
        assert((1u32 << 0u32) | (1u32 << 6u32) | (1u32 << 1u32) | (0u32 << 4u32) == 0x43u32) by (bit_vector);
        ops.push(write_reg(I2C1_BASE + IC_CON, the_bits));

        proof {
            assert(timing_in_range(125_000_000, 400_000));
        }
        let mut timing = set_cnts(125_000_000, 400_000);
        ops.append(&mut timing);

        ops.push(set_bits(I2C1_ENABLE, 0x0000_0001));
        assert(ops@ =~= init_ops(self.sda_pin(), self.scl_pin()));
        ops
    }

    /// Makes `address` the target of the next transfers.
    fn set_address(&mut self, address: u8) -> (ops: Vec<RegOp>)
        ensures
            ops@ == target_ops(address),
            final(self).target() == address,
            final(self).sda_pin() == old(self).sda_pin(),
            final(self).scl_pin() == old(self).scl_pin(),
    {
        self.address = address;
        let mut ops: Vec<RegOp> = Vec::new();
        ops.push(clear_bits(I2C1_ENABLE, 0x0000_0001));
        ops.push(write_reg(I2C1_TAR, self.address as u32));
        ops.push(set_bits(I2C1_ENABLE, 0x0000_0001));
        ops
    }

    /// Targets `addr` unless the controller targets it already.
    fn select(&mut self, addr: u8) -> (ops: Vec<RegOp>)
        ensures
            ops@ == select_ops(old(self).target(), addr),
            final(self).target() == addr,
            final(self).sda_pin() == old(self).sda_pin(),
            final(self).scl_pin() == old(self).scl_pin(),
    {
        if addr != self.address {
            self.set_address(addr)
        } else {
            Vec::new()
        }
    }

    /// The register traffic of writing `val` to register `reg` of device `addr`.
    pub fn write(&mut self, addr: u8, reg: u8, val: u8) -> (ops: Vec<RegOp>)
        ensures
            ops@ == write_ops(old(self).target(), addr, reg, val),
            final(self).target() == addr,
            final(self).sda_pin() == old(self).sda_pin(),
            final(self).scl_pin() == old(self).scl_pin(),
    {
        let mut ops = self.select(addr);

        // The register address: RESTART, no STOP, write.
        ops.push(write_reg(I2C1_DATA_CMD, data_cmd(true, false, false, reg)));
        // The value: no RESTART, STOP, write.
        ops.push(write_reg(I2C1_DATA_CMD, data_cmd(false, true, false, val)));
        // Wait until the controller is idle again.
        ops.push(RegOp::WaitUntil { addr: I2C1_STATUS, mask: 1, expected: 0 });
        assert(ops@ =~= write_ops(old(self).target(), addr, reg, val));
        ops
    }

    /// The register traffic of reading `len` bytes from device `addr`,
    /// starting at its register `reg`; byte `i` lands in entry `i` of the buffer.
    pub fn read(&mut self, addr: u8, reg: u8, len: usize) -> (ops: Vec<RegOp>)
        ensures
            ops@ == read_ops(old(self).target(), addr, reg, len as nat),
            final(self).target() == addr,
            final(self).sda_pin() == old(self).sda_pin(),
            final(self).scl_pin() == old(self).scl_pin(),
    {
        let mut ops = self.select(addr);

        // The register address: RESTART, no STOP, write.
        ops.push(write_reg(I2C1_DATA_CMD, data_cmd(true, false, false, reg)));
        let ghost start = ops@;

        let mut i: usize = 0;
        while i < len
            invariant
                i <= len,
                ops@ == start + bytes_ops(reg, len as nat, i as nat),
            decreases len - i,
        {
            // A read command; STOP after the last byte.
            let last = i == len - 1;
            ops.push(write_reg(I2C1_DATA_CMD, data_cmd(false, last, true, reg)));
            // Wait for the byte to arrive in the receive FIFO, then fetch it.
            ops.push(RegOp::WaitUntil { addr: I2C1_STATUS, mask: 8, expected: 8 });
            ops.push(RegOp::ReadByte { addr: I2C1_DATA_CMD, slot: i });
            proof {
                assert(bytes_ops(reg, len as nat, (i + 1) as nat) == bytes_ops(reg, len as nat, i as nat)
                    + byte_ops(reg, len as nat, i as nat));
            }
            i = i + 1;
        }
        ops
    }
}

} // verus!
