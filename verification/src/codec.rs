use vstd::prelude::*;
use crate::hints::{hint_view, Hint, HintV};
use crate::bigint::{
    big_add, big_div, big_from_i64, big_from_u64, big_le, big_lt, big_mul, big_rem, big_sub,
    big_to_i64, big_to_u64, big_value,
};
use crate::operand::{
    dori_view, res_view, BinOpOperand, CellRef, DerefOrImmV, DerefOrImmediate, Operation, Register,
    ResOperand, ResOperandV,
};

verus! {

/// An ASCII decimal digit.
pub open spec fn is_digit(c: u8) -> bool {
    48 <= c <= 57
}

/// A natural number as decimal digits, least significant first.
pub open spec fn print_led(n: nat) -> Seq<u8>
    decreases n,
{
    if n < 10 {
        seq![(48 + n) as u8]
    } else {
        seq![(48 + n % 10) as u8] + print_led(n / 10)
    }
}

/// A signed number: an optional minus, digits, and a closing semicolon.
pub open spec fn code_sint(v: int) -> Seq<u8> {
    if v < 0 {
        seq![45u8] + print_led((-v) as nat) + seq![59u8]
    } else {
        print_led(v as nat) + seq![59u8]
    }
}

/// The letter naming a register.
pub open spec fn reg_byte(r: Register) -> u8 {
    if r is AP {
        65
    } else {
        70
    }
}

/// A cell: its register's letter and its offset.
pub open spec fn code_cell(c: CellRef) -> Seq<u8> {
    seq![reg_byte(c.register)] + code_sint(c.offset as int)
}

/// A second operand: `c` before a cell, `i` before an immediate.
pub open spec fn code_dori(d: DerefOrImmV) -> Seq<u8> {
    match d {
        DerefOrImmV::Deref(c) => seq![99u8] + code_cell(c),
        DerefOrImmV::Imm(v) => seq![105u8] + code_sint(v),
    }
}

/// The sign naming a binary operation.
pub open spec fn op_byte(op: Operation) -> u8 {
    if op is Add {
        43
    } else {
        42
    }
}

/// An operand: `d` a cell read, `D` a double dereference, `i` an
/// immediate, `b` a binary operation.
pub open spec fn code_res(r: ResOperandV) -> Seq<u8> {
    match r {
        ResOperandV::Deref(c) => seq![100u8] + code_cell(c),
        ResOperandV::DoubleDeref(c, off) => seq![68u8] + code_cell(c) + code_sint(off as int),
        ResOperandV::Imm(v) => seq![105u8] + code_sint(v),
        ResOperandV::BinOp(op, a, b) => seq![98u8, op_byte(op)] + code_cell(a) + code_dori(b),
    }
}

/// The canonical code of a hint: a tag letter and the hint's operands.
pub open spec fn code_of(h: HintV) -> Seq<u8> {
    match h {
        HintV::AllocSegment { dst } => seq![65u8] + code_cell(dst),
        HintV::TestLessThan { lhs, rhs, dst } => seq![60u8] + code_res(lhs) + code_res(rhs)
            + code_cell(dst),
        HintV::TestLessThanOrEqual { lhs, rhs, dst } => seq![76u8] + code_res(lhs) + code_res(rhs)
            + code_cell(dst),
        HintV::DivMod { lhs, rhs, quotient, remainder } => seq![68u8] + code_res(lhs) + code_res(
            rhs,
        ) + code_cell(quotient) + code_cell(remainder),
        HintV::SystemCall { system } => seq![83u8] + code_res(system),
        HintV::AllocDictFeltTo { dst } => seq![110u8] + code_cell(dst),
        HintV::DictFeltToRead { dict_ptr, key, value_dst } => seq![114u8] + code_cell(dict_ptr)
            + code_cell(key) + code_cell(value_dst),
        HintV::DictFeltToWrite { dict_ptr, key, value } => seq![119u8] + code_cell(dict_ptr)
            + code_cell(key) + code_cell(value),
        HintV::EnterScope => seq![69u8],
        HintV::ExitScope => seq![88u8],
        HintV::DictSquashHints { squashed_dict } => seq![81u8] + code_cell(squashed_dict),
        HintV::RandomEcPoint { x, y } => seq![80u8] + code_cell(x) + code_cell(y),
    }
}

/// Reads digits from `i` on, least significant first: the value and the
/// index after the digits. Nothing to read is a failure.
#[verifier::opaque]
pub open spec fn parse_led(s: Seq<u8>, i: int) -> Option<(int, int)>
    decreases s.len() - i,
{
    if 0 <= i < s.len() && is_digit(s[i]) {
        let d = s[i] - 48;
        if i + 1 < s.len() && is_digit(s[i + 1]) {
            match parse_led(s, i + 1) {
                Some(p) => Some((d + 10 * p.0, p.1)),
                None => None,
            }
        } else {
            Some((d, i + 1))
        }
    } else {
        None
    }
}

/// Reads a signed number closed by a semicolon.
#[verifier::opaque]
pub open spec fn parse_sint(s: Seq<u8>, i: int) -> Option<(int, int)> {
    if 0 <= i < s.len() && s[i] == 45 {
        match parse_led(s, i + 1) {
            Some(p) => if p.1 < s.len() && s[p.1] == 59 {
                Some((-p.0, p.1 + 1))
            } else {
                None
            },
            None => None,
        }
    } else {
        match parse_led(s, i) {
            Some(p) => if p.1 < s.len() && s[p.1] == 59 {
                Some((p.0, p.1 + 1))
            } else {
                None
            },
            None => None,
        }
    }
}

/// Reads a cell: a register letter and an offset that fits its field.
#[verifier::opaque]
pub open spec fn parse_cell(s: Seq<u8>, i: int) -> Option<(CellRef, int)> {
    if 0 <= i < s.len() && (s[i] == 65 || s[i] == 70) {
        let reg = if s[i] == 65 {
            Register::AP
        } else {
            Register::FP
        };
        match parse_sint(s, i + 1) {
            Some(p) => if -0x8000 <= p.0 < 0x8000 {
                Some((CellRef { register: reg, offset: p.0 as i16 }, p.1))
            } else {
                None
            },
            None => None,
        }
    } else {
        None
    }
}

/// Reads a second operand.
#[verifier::opaque]
pub open spec fn parse_dori(s: Seq<u8>, i: int) -> Option<(DerefOrImmV, int)> {
    if 0 <= i < s.len() && s[i] == 99 {
        match parse_cell(s, i + 1) {
            Some(p) => Some((DerefOrImmV::Deref(p.0), p.1)),
            None => None,
        }
    } else if 0 <= i < s.len() && s[i] == 105 {
        match parse_sint(s, i + 1) {
            Some(p) => Some((DerefOrImmV::Imm(p.0), p.1)),
            None => None,
        }
    } else {
        None
    }
}

/// Reads an operand.
#[verifier::opaque]
pub open spec fn parse_res(s: Seq<u8>, i: int) -> Option<(ResOperandV, int)> {
    if 0 <= i < s.len() && s[i] == 100 {
        match parse_cell(s, i + 1) {
            Some(p) => Some((ResOperandV::Deref(p.0), p.1)),
            None => None,
        }
    } else if 0 <= i < s.len() && s[i] == 68 {
        match parse_cell(s, i + 1) {
            Some(p) => match parse_sint(s, p.1) {
                Some(q) => if -0x8000 <= q.0 < 0x8000 {
                    Some((ResOperandV::DoubleDeref(p.0, q.0 as i16), q.1))
                } else {
                    None
                },
                None => None,
            },
            None => None,
        }
    } else if 0 <= i < s.len() && s[i] == 105 {
        match parse_sint(s, i + 1) {
            Some(p) => Some((ResOperandV::Imm(p.0), p.1)),
            None => None,
        }
    } else if 0 <= i < s.len() && s[i] == 98 && i + 1 < s.len() && (s[i + 1] == 43 || s[i + 1]
        == 42) {
        let op = if s[i + 1] == 43 {
            Operation::Add
        } else {
            Operation::Mul
        };
        match parse_cell(s, i + 2) {
            Some(p) => match parse_dori(s, p.1) {
                Some(q) => Some((ResOperandV::BinOp(op, p.0, q.0), q.1)),
                None => None,
            },
            None => None,
        }
    } else {
        None
    }
}

/// Reads a whole hint code; every byte must belong to it.
#[verifier::opaque]
pub open spec fn parse_hint(s: Seq<u8>) -> Option<HintV> {
    if s.len() == 0 {
        None
    } else if s[0] == 65 {
        match parse_cell(s, 1) {
            Some(p) => if p.1 == s.len() {
                Some(HintV::AllocSegment { dst: p.0 })
            } else {
                None
            },
            None => None,
        }
    } else if s[0] == 60 || s[0] == 76 {
        match parse_res(s, 1) {
            Some(p) => match parse_res(s, p.1) {
                Some(q) => match parse_cell(s, q.1) {
                    Some(c) => if c.1 == s.len() {
                        if s[0] == 60 {
                            Some(HintV::TestLessThan { lhs: p.0, rhs: q.0, dst: c.0 })
                        } else {
                            Some(HintV::TestLessThanOrEqual { lhs: p.0, rhs: q.0, dst: c.0 })
                        }
                    } else {
                        None
                    },
                    None => None,
                },
                None => None,
            },
            None => None,
        }
    } else if s[0] == 68 {
        match parse_res(s, 1) {
            Some(p) => match parse_res(s, p.1) {
                Some(q) => match parse_cell(s, q.1) {
                    Some(c) => match parse_cell(s, c.1) {
                        Some(d) => if d.1 == s.len() {
                            Some(
                                HintV::DivMod {
                                    lhs: p.0,
                                    rhs: q.0,
                                    quotient: c.0,
                                    remainder: d.0,
                                },
                            )
                        } else {
                            None
                        },
                        None => None,
                    },
                    None => None,
                },
                None => None,
            },
            None => None,
        }
    } else if s[0] == 83 {
        match parse_res(s, 1) {
            Some(p) => if p.1 == s.len() {
                Some(HintV::SystemCall { system: p.0 })
            } else {
                None
            },
            None => None,
        }
    } else if s[0] == 110 {
        match parse_cell(s, 1) {
            Some(p) => if p.1 == s.len() {
                Some(HintV::AllocDictFeltTo { dst: p.0 })
            } else {
                None
            },
            None => None,
        }
    } else if s[0] == 114 || s[0] == 119 {
        match parse_cell(s, 1) {
            Some(p) => match parse_cell(s, p.1) {
                Some(q) => match parse_cell(s, q.1) {
                    Some(c) => if c.1 == s.len() {
                        if s[0] == 114 {
                            Some(
                                HintV::DictFeltToRead {
                                    dict_ptr: p.0,
                                    key: q.0,
                                    value_dst: c.0,
                                },
                            )
                        } else {
                            Some(HintV::DictFeltToWrite { dict_ptr: p.0, key: q.0, value: c.0 })
                        }
                    } else {
                        None
                    },
                    None => None,
                },
                None => None,
            },
            None => None,
        }
    } else if s[0] == 69 {
        if s.len() == 1 {
            Some(HintV::EnterScope)
        } else {
            None
        }
    } else if s[0] == 88 {
        if s.len() == 1 {
            Some(HintV::ExitScope)
        } else {
            None
        }
    } else if s[0] == 81 {
        match parse_cell(s, 1) {
            Some(p) => if p.1 == s.len() {
                Some(HintV::DictSquashHints { squashed_dict: p.0 })
            } else {
                None
            },
            None => None,
        }
    } else if s[0] == 80 {
        match parse_cell(s, 1) {
            Some(p) => match parse_cell(s, p.1) {
                Some(q) => if q.1 == s.len() {
                    Some(HintV::RandomEcPoint { x: p.0, y: q.0 })
                } else {
                    None
                },
                None => None,
            },
            None => None,
        }
    } else {
        None
    }
}

/// Bytes of a region equal to `t` equal `t`'s bytes, index by index.
proof fn lemma_region_index(s: Seq<u8>, i: int, t: Seq<u8>)
    requires
        0 <= i,
        i + t.len() <= s.len(),
        s.subrange(i, i + t.len()) == t,
    ensures
        forall|k: int| i <= k < i + t.len() ==> #[trigger] s[k] == t[k - i],
{
    assert forall|k: int| i <= k < i + t.len() implies #[trigger] s[k] == t[k - i] by {
        assert(s.subrange(i, i + t.len() as int)[k - i] == s[k]);
    }
}

/// Printed digits start with a digit and are never empty.
proof fn lemma_print_led_first(n: nat)
    ensures
        print_led(n).len() >= 1,
        is_digit(print_led(n)[0]),
    decreases n,
{
}

/// Digits printed at `i` and closed by a non-digit parse back to their
/// value, ending right after the digits.
proof fn lemma_parse_led(s: Seq<u8>, i: int, n: nat)
    requires
        0 <= i,
        i + print_led(n).len() <= s.len(),
        s.subrange(i, i + print_led(n).len()) == print_led(n),
        i + print_led(n).len() == s.len() || !is_digit(s[i + print_led(n).len()]),
    ensures
        parse_led(s, i) == Some((n as int, i + print_led(n).len())),
    decreases n,
{
    reveal(parse_led);
    let l = print_led(n).len() as int;
    assert(s[i] == print_led(n)[0]);
    if n < 10 {
        assert(parse_led(s, i) == Some((n as int, i + 1)));
    } else {
        lemma_print_led_first(n / 10);
        assert(print_led(n) == seq![(48 + n % 10) as u8] + print_led(n / 10));
        assert(s.subrange(i + 1, i + l) =~= print_led(n).subrange(1, l));
        assert(print_led(n).subrange(1, l) =~= print_led(n / 10));
        assert(s[i + 1] == print_led(n / 10)[0]);
        lemma_parse_led(s, i + 1, n / 10);
        assert(parse_led(s, i) == Some((((n % 10) + 10 * (n / 10)) as int, i + l)));
        assert((n % 10) + 10 * (n / 10) == n) by (nonlinear_arith);
    }
}

/// A signed number printed at `i` parses back to its value, ending right
/// after its semicolon.
proof fn lemma_parse_sint(s: Seq<u8>, i: int, v: int)
    requires
        0 <= i,
        i + code_sint(v).len() <= s.len(),
        s.subrange(i, i + code_sint(v).len()) == code_sint(v),
    ensures
        parse_sint(s, i) == Some((v, i + code_sint(v).len())),
{
    reveal(parse_sint);
    let l = code_sint(v).len() as int;
    lemma_region_index(s, i, code_sint(v));
    if v < 0 {
        let m = (-v) as nat;
        let dl = print_led(m).len() as int;
        lemma_print_led_first(m);
        assert(code_sint(v) == seq![45u8] + print_led(m) + seq![59u8]);
        assert(s[i] == 45);
        assert(s.subrange(i + 1, i + 1 + dl) =~= code_sint(v).subrange(1, 1 + dl));
        assert(code_sint(v).subrange(1, 1 + dl) =~= print_led(m));
        assert(s[i + 1 + dl] == code_sint(v)[1 + dl]);
        assert(code_sint(v)[1 + dl] == 59);
        lemma_parse_led(s, i + 1, m);
        assert(parse_sint(s, i) == Some((v, i + l)));
    } else {
        let m = v as nat;
        let dl = print_led(m).len() as int;
        lemma_print_led_first(m);
        assert(code_sint(v) == print_led(m) + seq![59u8]);
        assert(s[i] == print_led(m)[0]);
        assert(s[i] != 45);
        assert(s.subrange(i, i + dl) =~= code_sint(v).subrange(0, dl));
        assert(code_sint(v).subrange(0, dl) =~= print_led(m));
        assert(s[i + dl] == code_sint(v)[dl]);
        assert(code_sint(v)[dl] == 59);
        lemma_parse_led(s, i, m);
        assert(parse_sint(s, i) == Some((v, i + l)));
    }
}

/// A cell printed at `i` parses back to itself.
proof fn lemma_parse_cell(s: Seq<u8>, i: int, c: CellRef)
    requires
        0 <= i,
        i + code_cell(c).len() <= s.len(),
        s.subrange(i, i + code_cell(c).len()) == code_cell(c),
    ensures
        parse_cell(s, i) == Some((c, i + code_cell(c).len())),
{
    reveal(parse_cell);
    let l = code_cell(c).len() as int;
    let sl = code_sint(c.offset as int).len() as int;
    lemma_region_index(s, i, code_cell(c));
    assert(code_cell(c) == seq![reg_byte(c.register)] + code_sint(c.offset as int));
    assert(s[i] == reg_byte(c.register));
    assert(s.subrange(i + 1, i + l) =~= code_cell(c).subrange(1, l));
    assert(code_cell(c).subrange(1, l) =~= code_sint(c.offset as int));
    lemma_parse_sint(s, i + 1, c.offset as int);
    assert(c.offset as int >= -0x8000);
    assert((c.offset as int) < 0x8000);
    assert(parse_cell(s, i) == Some((c, i + l)));
}

/// A second operand printed at `i` parses back to itself.
proof fn lemma_parse_dori(s: Seq<u8>, i: int, d: DerefOrImmV)
    requires
        0 <= i,
        i + code_dori(d).len() <= s.len(),
        s.subrange(i, i + code_dori(d).len()) == code_dori(d),
    ensures
        parse_dori(s, i) == Some((d, i + code_dori(d).len())),
{
    reveal(parse_dori);
    let l = code_dori(d).len() as int;
    lemma_region_index(s, i, code_dori(d));
    match d {
        DerefOrImmV::Deref(c) => {
            assert(code_dori(d) == seq![99u8] + code_cell(c));
            assert(s[i] == 99);
            assert(s.subrange(i + 1, i + l) =~= code_cell(c));
            lemma_parse_cell(s, i + 1, c);
        },
        DerefOrImmV::Imm(v) => {
            assert(code_dori(d) == seq![105u8] + code_sint(v));
            assert(s[i] == 105);
            assert(s.subrange(i + 1, i + l) =~= code_sint(v));
            lemma_parse_sint(s, i + 1, v);
        },
    }
}

/// An operand printed at `i` parses back to itself.
#[verifier::rlimit(100)]
proof fn lemma_parse_res(s: Seq<u8>, i: int, r: ResOperandV)
    requires
        0 <= i,
        i + code_res(r).len() <= s.len(),
        s.subrange(i, i + code_res(r).len()) == code_res(r),
    ensures
        parse_res(s, i) == Some((r, i + code_res(r).len())),
{
    reveal(parse_res);
    let l = code_res(r).len() as int;
    lemma_region_index(s, i, code_res(r));
    match r {
        ResOperandV::Deref(c) => {
            assert(code_res(r) == seq![100u8] + code_cell(c));
            assert(s[i] == 100);
            assert(s.subrange(i + 1, i + l) =~= code_cell(c));
            lemma_parse_cell(s, i + 1, c);
        },
        ResOperandV::DoubleDeref(c, off) => {
            let cl = code_cell(c).len() as int;
            assert(code_res(r) == seq![68u8] + code_cell(c) + code_sint(off as int));
            assert(s[i] == 68);
            assert(s.subrange(i + 1, i + 1 + cl) =~= code_cell(c));
            lemma_parse_cell(s, i + 1, c);
            assert(s.subrange(i + 1 + cl, i + l) =~= code_sint(off as int));
            lemma_parse_sint(s, i + 1 + cl, off as int);
        },
        ResOperandV::Imm(v) => {
            assert(code_res(r) == seq![105u8] + code_sint(v));
            assert(s[i] == 105);
            assert(s.subrange(i + 1, i + l) =~= code_sint(v));
            lemma_parse_sint(s, i + 1, v);
        },
        ResOperandV::BinOp(op, a, b) => {
            let cl = code_cell(a).len() as int;
            assert(code_res(r) == seq![98u8, op_byte(op)] + code_cell(a) + code_dori(b));
            assert(s[i] == 98);
            assert(s[i + 1] == op_byte(op));
            assert(s.subrange(i + 2, i + 2 + cl) =~= code_cell(a));
            lemma_parse_cell(s, i + 2, a);
            assert(s.subrange(i + 2 + cl, i + l) =~= code_dori(b));
            lemma_parse_dori(s, i + 2 + cl, b);
        },
    }
}

/// The code of a hint over one cell parses back, whatever its tag.
#[verifier::rlimit(60)]
proof fn lemma_rt_h(h: HintV)
    requires
        h matches HintV::AllocSegment { .. } || h matches HintV::SystemCall { .. } || h matches
            HintV::AllocDictFeltTo { .. } || h matches HintV::EnterScope || h matches
            HintV::ExitScope || h matches HintV::DictSquashHints { .. } || h matches
            HintV::RandomEcPoint { .. },
    ensures
        parse_hint(code_of(h)) == Some(h),
{
    let s = code_of(h);
    reveal(parse_hint);
    assert(s.subrange(0, s.len() as int) =~= s);
    lemma_region_index(s, 0, s);
    match h {
        HintV::AllocSegment { dst } => {
            assert(s.subrange(1, s.len() as int) =~= code_cell(dst));
            lemma_parse_cell(s, 1, dst);
        },
        HintV::SystemCall { system } => {
            assert(s.subrange(1, s.len() as int) =~= code_res(system));
            lemma_parse_res(s, 1, system);
        },
        HintV::AllocDictFeltTo { dst } => {
            assert(s.subrange(1, s.len() as int) =~= code_cell(dst));
            lemma_parse_cell(s, 1, dst);
        },
        HintV::DictSquashHints { squashed_dict } => {
            assert(s.subrange(1, s.len() as int) =~= code_cell(squashed_dict));
            lemma_parse_cell(s, 1, squashed_dict);
        },
        HintV::RandomEcPoint { x, y } => {
            let l1 = code_cell(x).len() as int;
            assert(s.subrange(1, 1 + l1) =~= code_cell(x));
            lemma_parse_cell(s, 1, x);
            assert(s.subrange(1 + l1, s.len() as int) =~= code_cell(y));
            lemma_parse_cell(s, 1 + l1, y);
        },
        _ => {},
    }
}

/// The code of a comparison hint parses back.
#[verifier::rlimit(100)]
proof fn lemma_rt_cmp(h: HintV)
    requires
        h matches HintV::TestLessThan { .. } || h matches HintV::TestLessThanOrEqual { .. },
    ensures
        parse_hint(code_of(h)) == Some(h),
{
    let s = code_of(h);
    reveal(parse_hint);
    assert(s.subrange(0, s.len() as int) =~= s);
    lemma_region_index(s, 0, s);
    match h {
        HintV::TestLessThan { lhs, rhs, dst } => {
            let l1 = code_res(lhs).len() as int;
            let l2 = code_res(rhs).len() as int;
            assert(s.subrange(1, 1 + l1) =~= code_res(lhs));
            lemma_parse_res(s, 1, lhs);
            assert(s.subrange(1 + l1, 1 + l1 + l2) =~= code_res(rhs));
            lemma_parse_res(s, 1 + l1, rhs);
            assert(s.subrange(1 + l1 + l2, s.len() as int) =~= code_cell(dst));
            lemma_parse_cell(s, 1 + l1 + l2, dst);
        },
        HintV::TestLessThanOrEqual { lhs, rhs, dst } => {
            let l1 = code_res(lhs).len() as int;
            let l2 = code_res(rhs).len() as int;
            assert(s.subrange(1, 1 + l1) =~= code_res(lhs));
            lemma_parse_res(s, 1, lhs);
            assert(s.subrange(1 + l1, 1 + l1 + l2) =~= code_res(rhs));
            lemma_parse_res(s, 1 + l1, rhs);
            assert(s.subrange(1 + l1 + l2, s.len() as int) =~= code_cell(dst));
            lemma_parse_cell(s, 1 + l1 + l2, dst);
        },
        _ => {},
    }
}

/// The code of a division hint parses back.
#[verifier::rlimit(100)]
proof fn lemma_rt_div(h: HintV)
    requires
        h matches HintV::DivMod { .. },
    ensures
        parse_hint(code_of(h)) == Some(h),
{
    let s = code_of(h);
    reveal(parse_hint);
    assert(s.subrange(0, s.len() as int) =~= s);
    lemma_region_index(s, 0, s);
    match h {
        HintV::DivMod { lhs, rhs, quotient, remainder } => {
            let l1 = code_res(lhs).len() as int;
            let l2 = code_res(rhs).len() as int;
            let l3 = code_cell(quotient).len() as int;
            assert(s.subrange(1, 1 + l1) =~= code_res(lhs));
            lemma_parse_res(s, 1, lhs);
            assert(s.subrange(1 + l1, 1 + l1 + l2) =~= code_res(rhs));
            lemma_parse_res(s, 1 + l1, rhs);
            assert(s.subrange(1 + l1 + l2, 1 + l1 + l2 + l3) =~= code_cell(quotient));
            lemma_parse_cell(s, 1 + l1 + l2, quotient);
            assert(s.subrange(1 + l1 + l2 + l3, s.len() as int) =~= code_cell(remainder));
            lemma_parse_cell(s, 1 + l1 + l2 + l3, remainder);
        },
        _ => {},
    }
}

/// The code of a dictionary access hint parses back.
#[verifier::rlimit(100)]
proof fn lemma_rt_dict(h: HintV)
    requires
        h matches HintV::DictFeltToRead { .. } || h matches HintV::DictFeltToWrite { .. },
    ensures
        parse_hint(code_of(h)) == Some(h),
{
    let s = code_of(h);
    reveal(parse_hint);
    assert(s.subrange(0, s.len() as int) =~= s);
    lemma_region_index(s, 0, s);
    match h {
        HintV::DictFeltToRead { dict_ptr, key, value_dst } => {
            let l1 = code_cell(dict_ptr).len() as int;
            let l2 = code_cell(key).len() as int;
            assert(s.subrange(1, 1 + l1) =~= code_cell(dict_ptr));
            lemma_parse_cell(s, 1, dict_ptr);
            assert(s.subrange(1 + l1, 1 + l1 + l2) =~= code_cell(key));
            lemma_parse_cell(s, 1 + l1, key);
            assert(s.subrange(1 + l1 + l2, s.len() as int) =~= code_cell(value_dst));
            lemma_parse_cell(s, 1 + l1 + l2, value_dst);
        },
        HintV::DictFeltToWrite { dict_ptr, key, value } => {
            let l1 = code_cell(dict_ptr).len() as int;
            let l2 = code_cell(key).len() as int;
            assert(s.subrange(1, 1 + l1) =~= code_cell(dict_ptr));
            lemma_parse_cell(s, 1, dict_ptr);
            assert(s.subrange(1 + l1, 1 + l1 + l2) =~= code_cell(key));
            lemma_parse_cell(s, 1 + l1, key);
            assert(s.subrange(1 + l1 + l2, s.len() as int) =~= code_cell(value));
            lemma_parse_cell(s, 1 + l1 + l2, value);
        },
        _ => {},
    }
}

/// Every hint's canonical code parses back to the hint itself.
pub proof fn lemma_code_round_trip(h: HintV)
    ensures
        parse_hint(code_of(h)) == Some(h),
{
    match h {
        HintV::TestLessThan { .. } => lemma_rt_cmp(h),
        HintV::TestLessThanOrEqual { .. } => lemma_rt_cmp(h),
        HintV::DivMod { .. } => lemma_rt_div(h),
        HintV::DictFeltToRead { .. } => lemma_rt_dict(h),
        HintV::DictFeltToWrite { .. } => lemma_rt_dict(h),
        _ => lemma_rt_h(h),
    }
}

/// Two hints with the same canonical code are the same hint.
pub proof fn lemma_code_injective(a: HintV, b: HintV)
    requires
        code_of(a) == code_of(b),
    ensures
        a == b,
{
    lemma_code_round_trip(a);
    lemma_code_round_trip(b);
}

/// Appends a natural number's digits, least significant first.
fn push_led_u64(out: &mut Vec<u8>, n: u64)
    ensures
        final(out)@ == old(out)@ + print_led(n as nat),
    decreases n,
{
    if n < 10 {
        out.push((48 + n) as u8);
        proof {
            assert(out@ =~= old(out)@ + print_led(n as nat));
        }
    } else {
        out.push((48 + (n % 10)) as u8);
        push_led_u64(out, n / 10);
        proof {
            assert(out@ =~= old(out)@ + print_led(n as nat));
        }
    }
}

/// Appends a nonnegative big integer's digits, least significant first.
fn push_led_big(out: &mut Vec<u8>, n: &num_bigint::BigInt)
    requires
        big_value(*n) >= 0,
    ensures
        final(out)@ == old(out)@ + print_led(big_value(*n) as nat),
    decreases big_value(*n),
{
    let ten: num_bigint::BigInt = big_from_u64(10);
    if big_lt(n, &ten) {
        let d: u64 = big_to_u64(n);
        out.push((48 + d) as u8);
        proof {
            assert(out@ =~= old(out)@ + print_led(big_value(*n) as nat));
        }
    } else {
        let q: num_bigint::BigInt = big_div(n, &ten);
        let r: num_bigint::BigInt = big_rem(n, &ten);
        proof {
            assert(big_value(q) == big_value(*n) / 10);
            assert(big_value(r) == big_value(*n) - 10 * (big_value(*n) / 10));
            assert(0 <= big_value(r) < 10);
        }
        let d: u64 = big_to_u64(&r);
        out.push((48 + d) as u8);
        push_led_big(out, &q);
        proof {
            assert(out@ =~= old(out)@ + print_led(big_value(*n) as nat));
        }
    }
}

/// Appends a signed 16-bit number with its closing semicolon.
fn push_sint_i16(out: &mut Vec<u8>, v: i16)
    ensures
        final(out)@ == old(out)@ + code_sint(v as int),
{
    let w: i64 = v as i64;
    if w < 0 {
        out.push(45);
        push_led_u64(out, (-w) as u64);
    } else {
        push_led_u64(out, w as u64);
    }
    out.push(59);
    proof {
        assert(out@ =~= old(out)@ + code_sint(v as int));
    }
}

/// Appends a signed big integer with its closing semicolon.
fn push_sint_big(out: &mut Vec<u8>, v: &num_bigint::BigInt)
    ensures
        final(out)@ == old(out)@ + code_sint(big_value(*v)),
{
    let zero: num_bigint::BigInt = big_from_u64(0);
    if big_lt(v, &zero) {
        out.push(45);
        let a: num_bigint::BigInt = big_sub(&zero, v);
        push_led_big(out, &a);
    } else {
        push_led_big(out, v);
    }
    out.push(59);
    proof {
        assert(out@ =~= old(out)@ + code_sint(big_value(*v)));
    }
}

/// Appends a cell.
fn push_cell(out: &mut Vec<u8>, c: &CellRef)
    ensures
        final(out)@ == old(out)@ + code_cell(*c),
{
    match c.register {
        Register::AP => out.push(65),
        Register::FP => out.push(70),
    }
    push_sint_i16(out, c.offset);
    proof {
        assert(out@ =~= old(out)@ + code_cell(*c));
    }
}

/// Appends a second operand.
fn push_dori(out: &mut Vec<u8>, d: &DerefOrImmediate)
    ensures
        final(out)@ == old(out)@ + code_dori(dori_view(*d)),
{
    match d {
        DerefOrImmediate::Deref(c) => {
            out.push(99);
            push_cell(out, c);
        },
        DerefOrImmediate::Immediate(v) => {
            out.push(105);
            push_sint_big(out, v);
        },
    }
    proof {
        assert(out@ =~= old(out)@ + code_dori(dori_view(*d)));
    }
}

/// Appends an operand.
fn push_res(out: &mut Vec<u8>, r: &ResOperand)
    ensures
        final(out)@ == old(out)@ + code_res(res_view(*r)),
{
    match r {
        ResOperand::Deref(c) => {
            out.push(100);
            push_cell(out, c);
        },
        ResOperand::DoubleDeref(c, off) => {
            out.push(68);
            push_cell(out, c);
            push_sint_i16(out, *off);
        },
        ResOperand::Immediate(v) => {
            out.push(105);
            push_sint_big(out, v);
        },
        ResOperand::BinOp(b) => {
            out.push(98);
            match b.op {
                Operation::Add => out.push(43),
                Operation::Mul => out.push(42),
            }
            push_cell(out, &b.a);
            push_dori(out, &b.b);
        },
    }
    proof {
        assert(out@ =~= old(out)@ + code_res(res_view(*r)));
    }
}

/// The canonical code of a hint: the text the processor keys hints by.
pub fn hint_code(h: &Hint) -> (r: Vec<u8>)
    ensures
        r@ == code_of(hint_view(*h)),
{
    let mut out: Vec<u8> = Vec::new();
    match h {
        Hint::AllocSegment { dst } => {
            out.push(65);
            push_cell(&mut out, dst);
        },
        Hint::TestLessThan { lhs, rhs, dst } => {
            out.push(60);
            push_res(&mut out, lhs);
            push_res(&mut out, rhs);
            push_cell(&mut out, dst);
        },
        Hint::TestLessThanOrEqual { lhs, rhs, dst } => {
            out.push(76);
            push_res(&mut out, lhs);
            push_res(&mut out, rhs);
            push_cell(&mut out, dst);
        },
        Hint::DivMod { lhs, rhs, quotient, remainder } => {
            out.push(68);
            push_res(&mut out, lhs);
            push_res(&mut out, rhs);
            push_cell(&mut out, quotient);
            push_cell(&mut out, remainder);
        },
        Hint::SystemCall { system } => {
            out.push(83);
            push_res(&mut out, system);
        },
        Hint::AllocDictFeltTo { dst } => {
            out.push(110);
            push_cell(&mut out, dst);
        },
        Hint::DictFeltToRead { dict_ptr, key, value_dst } => {
            out.push(114);
            push_cell(&mut out, dict_ptr);
            push_cell(&mut out, key);
            push_cell(&mut out, value_dst);
        },
        Hint::DictFeltToWrite { dict_ptr, key, value } => {
            out.push(119);
            push_cell(&mut out, dict_ptr);
            push_cell(&mut out, key);
            push_cell(&mut out, value);
        },
        Hint::EnterScope => {
            out.push(69);
        },
        Hint::ExitScope => {
            out.push(88);
        },
        Hint::DictSquashHints { squashed_dict } => {
            out.push(81);
            push_cell(&mut out, squashed_dict);
        },
        Hint::RandomEcPoint { x, y } => {
            out.push(80);
            push_cell(&mut out, x);
            push_cell(&mut out, y);
        },
    }
    proof {
        assert(out@ =~= code_of(hint_view(*h)));
    }
    out
}

/// Reads digits at `i` as `parse_led` does.
fn parse_led_exec(s: &[u8], i: usize) -> (r: Option<(num_bigint::BigInt, usize)>)
    ensures
        match r {
            Some(p) => parse_led(s@, i as int) == Some((big_value(p.0), p.1 as int)),
            None => parse_led(s@, i as int) is None,
        },
    decreases s@.len() - i,
{
    proof {
        reveal(parse_led);
    }
    if i < s.len() && 48 <= s[i] && s[i] <= 57 {
        let d: num_bigint::BigInt = big_from_u64((s[i] - 48) as u64);
        if i + 1 < s.len() && 48 <= s[i + 1] && s[i + 1] <= 57 {
            match parse_led_exec(s, i + 1) {
                Some((v, j)) => {
                    let ten: num_bigint::BigInt = big_from_u64(10);
                    let t: num_bigint::BigInt = big_mul(&ten, &v);
                    Some((big_add(&d, &t), j))
                },
                None => None,
            }
        } else {
            Some((d, i + 1))
        }
    } else {
        None
    }
}

/// Reads a signed number at `i` as `parse_sint` does.
fn parse_sint_exec(s: &[u8], i: usize) -> (r: Option<(num_bigint::BigInt, usize)>)
    ensures
        match r {
            Some(p) => parse_sint(s@, i as int) == Some((big_value(p.0), p.1 as int)),
            None => parse_sint(s@, i as int) is None,
        },
{
    proof {
        reveal(parse_sint);
    }
    if i < s.len() && s[i] == 45 {
        match parse_led_exec(s, i + 1) {
            Some((v, j)) => {
                if j < s.len() && s[j] == 59 {
                    let zero: num_bigint::BigInt = big_from_u64(0);
                    Some((big_sub(&zero, &v), j + 1))
                } else {
                    None
                }
            },
            None => None,
        }
    } else {
        match parse_led_exec(s, i) {
            Some((v, j)) => {
                if j < s.len() && s[j] == 59 {
                    Some((v, j + 1))
                } else {
                    None
                }
            },
            None => None,
        }
    }
}

/// Reads a cell at `i` as `parse_cell` does.
fn parse_cell_exec(s: &[u8], i: usize) -> (r: Option<(CellRef, usize)>)
    ensures
        match r {
            Some(p) => parse_cell(s@, i as int) == Some((p.0, p.1 as int)),
            None => parse_cell(s@, i as int) is None,
        },
{
    proof {
        reveal(parse_cell);
    }
    if i < s.len() && (s[i] == 65 || s[i] == 70) {
        let reg: Register = if s[i] == 65 {
            Register::AP
        } else {
            Register::FP
        };
        match parse_sint_exec(s, i + 1) {
            Some((v, j)) => {
                let min: num_bigint::BigInt = big_from_i64(-0x8000);
                let max: num_bigint::BigInt = big_from_i64(0x7fff);
                if big_le(&min, &v) && big_le(&v, &max) {
                    let off: i64 = big_to_i64(&v);
                    Some((CellRef { register: reg, offset: off as i16 }, j))
                } else {
                    None
                }
            },
            None => None,
        }
    } else {
        None
    }
}

/// Reads a second operand at `i` as `parse_dori` does.
fn parse_dori_exec(s: &[u8], i: usize) -> (r: Option<(DerefOrImmediate, usize)>)
    ensures
        match r {
            Some(p) => parse_dori(s@, i as int) == Some((dori_view(p.0), p.1 as int)),
            None => parse_dori(s@, i as int) is None,
        },
{
    proof {
        reveal(parse_dori);
    }
    if i < s.len() && s[i] == 99 {
        match parse_cell_exec(s, i + 1) {
            Some((c, j)) => Some((DerefOrImmediate::Deref(c), j)),
            None => None,
        }
    } else if i < s.len() && s[i] == 105 {
        match parse_sint_exec(s, i + 1) {
            Some((v, j)) => Some((DerefOrImmediate::Immediate(v), j)),
            None => None,
        }
    } else {
        None
    }
}

/// Reads an operand at `i` as `parse_res` does.
fn parse_res_exec(s: &[u8], i: usize) -> (r: Option<(ResOperand, usize)>)
    ensures
        match r {
            Some(p) => parse_res(s@, i as int) == Some((res_view(p.0), p.1 as int)),
            None => parse_res(s@, i as int) is None,
        },
{
    proof {
        reveal(parse_res);
    }
    if i < s.len() && s[i] == 100 {
        match parse_cell_exec(s, i + 1) {
            Some((c, j)) => Some((ResOperand::Deref(c), j)),
            None => None,
        }
    } else if i < s.len() && s[i] == 68 {
        match parse_cell_exec(s, i + 1) {
            Some((c, j)) => match parse_sint_exec(s, j) {
                Some((v, k)) => {
                    let min: num_bigint::BigInt = big_from_i64(-0x8000);
                    let max: num_bigint::BigInt = big_from_i64(0x7fff);
                    if big_le(&min, &v) && big_le(&v, &max) {
                        let off: i64 = big_to_i64(&v);
                        Some((ResOperand::DoubleDeref(c, off as i16), k))
                    } else {
                        None
                    }
                },
                None => None,
            },
            None => None,
        }
    } else if i < s.len() && s[i] == 105 {
        match parse_sint_exec(s, i + 1) {
            Some((v, j)) => Some((ResOperand::Immediate(v), j)),
            None => None,
        }
    } else if i < s.len() && s[i] == 98 && i + 1 < s.len() && (s[i + 1] == 43 || s[i + 1] == 42) {
        let op: Operation = if s[i + 1] == 43 {
            Operation::Add
        } else {
            Operation::Mul
        };
        match parse_cell_exec(s, i + 2) {
            Some((c, j)) => match parse_dori_exec(s, j) {
                Some((d, k)) => Some(
                    (ResOperand::BinOp(BinOpOperand { op, a: c, b: d }), k),
                ),
                None => None,
            },
            None => None,
        }
    } else {
        None
    }
}

/// Reads a whole hint code back into the hint it prints.
pub fn hint_deserialize(bytes: &[u8]) -> (r: Option<Hint>)
    ensures
        match r {
            Some(h) => parse_hint(bytes@) == Some(hint_view(h)),
            None => parse_hint(bytes@) is None,
        },
{
    proof {
        reveal(parse_hint);
    }
    if bytes.len() == 0 {
        return None;
    }
    let tag: u8 = bytes[0];
    if tag == 65 {
        match parse_cell_exec(bytes, 1) {
            Some((dst, j)) => {
                if j == bytes.len() {
                    Some(Hint::AllocSegment { dst })
                } else {
                    None
                }
            },
            None => None,
        }
    } else if tag == 60 || tag == 76 {
        match parse_res_exec(bytes, 1) {
            Some((lhs, j)) => match parse_res_exec(bytes, j) {
                Some((rhs, k)) => match parse_cell_exec(bytes, k) {
                    Some((dst, m)) => {
                        if m == bytes.len() {
                            if tag == 60 {
                                Some(Hint::TestLessThan { lhs, rhs, dst })
                            } else {
                                Some(Hint::TestLessThanOrEqual { lhs, rhs, dst })
                            }
                        } else {
                            None
                        }
                    },
                    None => None,
                },
                None => None,
            },
            None => None,
        }
    } else if tag == 68 {
        match parse_res_exec(bytes, 1) {
            Some((lhs, j)) => match parse_res_exec(bytes, j) {
                Some((rhs, k)) => match parse_cell_exec(bytes, k) {
                    Some((quotient, m)) => match parse_cell_exec(bytes, m) {
                        Some((remainder, e)) => {
                            if e == bytes.len() {
                                Some(Hint::DivMod { lhs, rhs, quotient, remainder })
                            } else {
                                None
                            }
                        },
                        None => None,
                    },
                    None => None,
                },
                None => None,
            },
            None => None,
        }
    } else if tag == 83 {
        match parse_res_exec(bytes, 1) {
            Some((system, j)) => {
                if j == bytes.len() {
                    Some(Hint::SystemCall { system })
                } else {
                    None
                }
            },
            None => None,
        }
    } else if tag == 110 {
        match parse_cell_exec(bytes, 1) {
            Some((dst, j)) => {
                if j == bytes.len() {
                    Some(Hint::AllocDictFeltTo { dst })
                } else {
                    None
                }
            },
            None => None,
        }
    } else if tag == 114 || tag == 119 {
        match parse_cell_exec(bytes, 1) {
            Some((dict_ptr, j)) => match parse_cell_exec(bytes, j) {
                Some((key, k)) => match parse_cell_exec(bytes, k) {
                    Some((third, m)) => {
                        if m == bytes.len() {
                            if tag == 114 {
                                Some(Hint::DictFeltToRead { dict_ptr, key, value_dst: third })
                            } else {
                                Some(Hint::DictFeltToWrite { dict_ptr, key, value: third })
                            }
                        } else {
                            None
                        }
                    },
                    None => None,
                },
                None => None,
            },
            None => None,
        }
    } else if tag == 69 {
        if bytes.len() == 1 {
            Some(Hint::EnterScope)
        } else {
            None
        }
    } else if tag == 88 {
        if bytes.len() == 1 {
            Some(Hint::ExitScope)
        } else {
            None
        }
    } else if tag == 81 {
        match parse_cell_exec(bytes, 1) {
            Some((squashed_dict, j)) => {
                if j == bytes.len() {
                    Some(Hint::DictSquashHints { squashed_dict })
                } else {
                    None
                }
            },
            None => None,
        }
    } else if tag == 80 {
        match parse_cell_exec(bytes, 1) {
            Some((x, j)) => match parse_cell_exec(bytes, j) {
                Some((y, k)) => {
                    if k == bytes.len() {
                        Some(Hint::RandomEcPoint { x, y })
                    } else {
                        None
                    }
                },
                None => None,
            },
            None => None,
        }
    } else {
        None
    }
}

} // verus!
