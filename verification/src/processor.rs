use vstd::prelude::*;
use crate::codec::{code_of, hint_code, lemma_code_injective};
use crate::hints::{hint_view, Hint};

verus! {

/// One instruction's body as its encoded memory words; the code generator
/// supplies the exact encoding, and its length is the instruction's size.
pub struct InstructionBody {
    pub words: Vec<num_bigint::BigInt>,
}

impl InstructionBody {
    /// The instruction's size in memory cells.
    pub fn op_size(&self) -> (r: usize)
        ensures
            r == self.words@.len(),
    {
        self.words.len()
    }
}

/// An instruction: its encoded body and the hints firing at its offset.
pub struct Instruction {
    pub body: InstructionBody,
    pub hints: Vec<Hint>,
}

/// The hint descriptor handed to the machine: the canonical code. The
/// accessible scopes and flow-tracking data the machine also expects are
/// empty and are supplied at the boundary.
pub struct HintParams {
    pub code: Vec<u8>,
}

/// The canonical codes of a hint list, in order.
pub open spec fn codes_of(hs: Seq<Hint>) -> Seq<Seq<u8>> {
    hs.map(|_i: int, h: Hint| code_of(hint_view(h)))
}

/// The size, in cells, of the first `k` instructions.
pub open spec fn prefix_size(s: Seq<Instruction>, k: int) -> int
    decreases k,
{
    if k <= 0 {
        0
    } else {
        prefix_size(s, k - 1) + s[k - 1].body.words@.len()
    }
}

/// Prefix sizes grow with the prefix.
pub proof fn lemma_prefix_le(s: Seq<Instruction>, a: int, b: int)
    requires
        a <= b,
    ensures
        prefix_size(s, a) <= prefix_size(s, b),
    decreases b - a,
{
    if a < b {
        lemma_prefix_le(s, a, b - 1);
    }
}

/// The offset table that a scan of the instructions builds: one entry per
/// instruction with hints, keyed by the size of all instructions before it.
pub open spec fn dict_model(s: Seq<Instruction>, k: int) -> Seq<(int, Seq<Seq<u8>>)>
    decreases k,
{
    if k <= 0 {
        Seq::empty()
    } else {
        let d = dict_model(s, k - 1);
        if s[k - 1].hints@.len() > 0 {
            d.push((prefix_size(s, k - 1), codes_of(s[k - 1].hints@)))
        } else {
            d
        }
    }
}

/// The mathematical shape of the offset table.
pub open spec fn dict_view(d: Seq<(usize, Vec<HintParams>)>) -> Seq<(int, Seq<Seq<u8>>)> {
    d.map(|_i: int, e: (usize, Vec<HintParams>)| (e.0 as int, e.1@.map(|_j: int, p: HintParams| p.code@)))
}

/// Every entry of the code map carries the code of its own hint.
pub open spec fn map_wf(m: Seq<(Vec<u8>, Hint)>) -> bool {
    forall|j: int| 0 <= j < m.len() ==> (#[trigger] m[j].0)@ == code_of(hint_view(m[j].1))
}

/// The code map holds an entry under this code.
pub open spec fn map_has_code(m: Seq<(Vec<u8>, Hint)>, c: Seq<u8>) -> bool {
    exists|j: int| 0 <= j < m.len() && (#[trigger] m[j].0)@ == c
}

/// The table an instruction stream builds: hints by offset, and the hints
/// themselves by their code.
pub struct CairoHintProcessor {
    pub hints_dict: Vec<(usize, Vec<HintParams>)>,
    pub string_to_hint: Vec<(Vec<u8>, Hint)>,
}

/// Converts a hint to the descriptor handed to the machine.
pub fn hint_to_hint_params(hint: &Hint) -> (r: HintParams)
    ensures
        r.code@ == code_of(hint_view(*hint)),
{
    HintParams { code: hint_code(hint) }
}

/// Adds a hint under its code unless the code is already there; a map with
/// sound entries stays sound, and values never contradict their keys.
fn map_insert(m: &mut Vec<(Vec<u8>, Hint)>, code: Vec<u8>, h: Hint)
    requires
        map_wf(old(m)@),
        code@ == code_of(hint_view(h)),
    ensures
        map_wf(final(m)@),
        map_has_code(final(m)@, code@),
        forall|c: Seq<u8>| map_has_code(old(m)@, c) ==> map_has_code(final(m)@, c),
{
    let n: usize = m.len();
    let mut i: usize = 0;
    while i < n
        invariant
            m@ == old(m)@,
            map_wf(m@),
            code@ == code_of(hint_view(h)),
            n == m@.len(),
            i <= n,
        decreases n - i,
    {
        if bytes_eq(&m[i].0, &code) {
            proof {
                assert((m@[i as int].0)@ == code@);
            }
            return ;
        }
        i += 1;
    }
    m.push((code, h));
    proof {
        assert(map_has_code(m@, code@)) by {
            assert(m@[m@.len() - 1].0@ == code@);
        }
        assert forall|c: Seq<u8>| map_has_code(old(m)@, c) implies map_has_code(m@, c) by {
            let j = choose|j: int| 0 <= j < old(m)@.len() && (#[trigger] old(m)@[j].0)@ == c;
            assert(m@[j].0@ == c);
        }
    }
}

/// Byte-for-byte equality of two byte strings.
pub fn bytes_eq(a: &Vec<u8>, b: &Vec<u8>) -> (r: bool)
    ensures
        r == (a@ == b@),
{
    if a.len() != b.len() {
        proof {
            assert(a@ != b@);
        }
        return false;
    }
    let n: usize = a.len();
    let mut i: usize = 0;
    while i < n
        invariant
            n == a@.len() == b@.len(),
            i <= n,
            forall|j: int| 0 <= j < i ==> a@[j] == b@[j],
        decreases n - i,
    {
        if a[i] != b[i] {
            return false;
        }
        i += 1;
    }
    proof {
        assert(a@ =~= b@);
    }
    true
}

impl CairoHintProcessor {
    /// The processor's tables are sound: offsets and codes follow from an
    /// instruction stream, and the code map's entries match their keys.
    pub open spec fn wf(&self) -> bool {
        map_wf(self.string_to_hint@)
    }

    /// Scans the instruction stream once: for every instruction with
    /// hints, records the hints' codes under the instruction's offset (the
    /// size of everything before it) and each hint under its own code.
    pub fn new(instructions: &Vec<Instruction>) -> (r: Self)
        requires
            prefix_size(instructions@, instructions@.len() as int) <= usize::MAX,
        ensures
            r.wf(),
            dict_view(r.hints_dict@) == dict_model(instructions@, instructions@.len() as int),
            forall|k: int, l: int|
                0 <= k < instructions@.len() && 0 <= l < (
                #[trigger] instructions@[k].hints@).len() ==> map_has_code(
                    r.string_to_hint@,
                    code_of(hint_view(#[trigger] instructions@[k].hints@[l])),
                ),
    {
        let ghost s = instructions@;
        let n: usize = instructions.len();
        let mut hints_dict: Vec<(usize, Vec<HintParams>)> = Vec::new();
        let mut string_to_hint: Vec<(Vec<u8>, Hint)> = Vec::new();
        let mut hint_offset: usize = 0;
        let mut k: usize = 0;
        proof {
            assert(dict_view(hints_dict@) =~~= dict_model(s, 0));
        }
        while k < n
            invariant
                s == instructions@,
                n == s.len(),
                k <= n,
                prefix_size(s, s.len() as int) <= usize::MAX,
                hint_offset == prefix_size(s, k as int),
                map_wf(string_to_hint@),
                dict_view(hints_dict@) == dict_model(s, k as int),
                forall|k2: int, l: int|
                    0 <= k2 < k && 0 <= l < (#[trigger] s[k2].hints@).len() ==> map_has_code(
                        string_to_hint@,
                        code_of(hint_view(#[trigger] s[k2].hints@[l])),
                    ),
            decreases n - k,
        {
            let instruction: &Instruction = &instructions[k];
            let m: usize = instruction.hints.len();
            if m > 0 {
                let mut params: Vec<HintParams> = Vec::new();
                let mut l: usize = 0;
                proof {
                    assert(params@.map(|_j: int, p: HintParams| p.code@) =~~= codes_of(
                        instruction.hints@,
                    ).take(0));
                }
                while l < m
                    invariant
                        s == instructions@,
                        k < s.len(),
                        instruction == s[k as int],
                        m == instruction.hints@.len(),
                        l <= m,
                        map_wf(string_to_hint@),
                        params@.map(|_j: int, p: HintParams| p.code@) == codes_of(
                            instruction.hints@,
                        ).take(l as int),
                        forall|l2: int|
                            0 <= l2 < l ==> map_has_code(
                                string_to_hint@,
                                code_of(hint_view(#[trigger] instruction.hints@[l2])),
                            ),
                        forall|k2: int, l2: int|
                            0 <= k2 < k && 0 <= l2 < (#[trigger] s[k2].hints@).len()
                                ==> map_has_code(
                                string_to_hint@,
                                code_of(hint_view(#[trigger] s[k2].hints@[l2])),
                            ),
                    decreases m - l,
                {
                    let code: Vec<u8> = hint_code(&instruction.hints[l]);
                    let h: Hint = crate::hints::dup_hint(&instruction.hints[l]);
                    map_insert(&mut string_to_hint, code, h);
                    let ghost prev = params@;
                    let hp: HintParams = hint_to_hint_params(&instruction.hints[l]);
                    params.push(hp);
                    proof {
                        let cs = codes_of(instruction.hints@);
                        assert(params@ == prev.push(hp));
                        assert(prev.len() == cs.take(l as int).len());
                        assert(params@.len() == l + 1);
                        assert forall|j: int|
                            0 <= j < l + 1 implies params@.map(|_j: int, p: HintParams| p.code@)[j]
                            == #[trigger] cs.take(l + 1)[j] by {
                            assert(params@.map(|_j: int, p: HintParams| p.code@)[j]
                                == params@[j].code@);
                            assert(cs[j] == code_of(hint_view(instruction.hints@[j])));
                            if j < l {
                                assert(params@[j] == prev[j]);
                                assert(prev.map(|_j: int, p: HintParams| p.code@)[j]
                                    == prev[j].code@);
                                assert(prev.map(|_j: int, p: HintParams| p.code@) == cs.take(
                                    l as int,
                                ));
                                assert(cs.take(l as int)[j] == cs[j]);
                            } else {
                                assert(params@[j] == hp);
                                assert(params@[j].code@ == code_of(
                                    hint_view(instruction.hints@[l as int]),
                                ));
                            }
                        }
                        assert(params@.map(|_j: int, p: HintParams| p.code@) =~= cs.take(l + 1));
                    }
                    l += 1;
                }
                hints_dict.push((hint_offset, params));
                proof {
                    assert(params@.map(|_j: int, p: HintParams| p.code@) == codes_of(
                        s[k as int].hints@,
                    ).take(m as int));
                    assert(codes_of(s[k as int].hints@).take(m as int) =~~= codes_of(
                        s[k as int].hints@,
                    ));
                    assert(dict_view(hints_dict@) =~~= dict_model(s, k + 1));
                }
            }
            proof {
                lemma_prefix_le(s, k + 1, s.len() as int);
                if s[k as int].hints@.len() == 0 {
                    assert(dict_view(hints_dict@) =~~= dict_model(s, k + 1));
                }
            }
            hint_offset = hint_offset + instruction.body.op_size();
            k += 1;
        }
        CairoHintProcessor { hints_dict, string_to_hint }
    }

    /// The hint stored under a code, if one is.
    pub fn hint_for_code(&self, code: &[u8]) -> (r: Option<&Hint>)
        requires
            self.wf(),
        ensures
            match r {
                Some(h) => code_of(hint_view(*h)) == code@ && map_has_code(
                    self.string_to_hint@,
                    code@,
                ),
                None => !map_has_code(self.string_to_hint@, code@),
            },
    {
        let n: usize = self.string_to_hint.len();
        let mut i: usize = 0;
        while i < n
            invariant
                self.wf(),
                n == self.string_to_hint@.len(),
                i <= n,
                forall|j: int| 0 <= j < i ==> (#[trigger] self.string_to_hint@[j].0)@ != code@,
            decreases n - i,
        {
            if bytes_eq_slice(&self.string_to_hint[i].0, code) {
                return Some(&self.string_to_hint[i].1);
            }
            i += 1;
        }
        None
    }
}

/// Byte-for-byte equality of a byte string and a slice.
fn bytes_eq_slice(a: &Vec<u8>, b: &[u8]) -> (r: bool)
    ensures
        r == (a@ == b@),
{
    if a.len() != b.len() {
        proof {
            assert(a@ != b@);
        }
        return false;
    }
    let n: usize = a.len();
    let mut i: usize = 0;
    while i < n
        invariant
            n == a@.len() == b@.len(),
            i <= n,
            forall|j: int| 0 <= j < i ==> a@[j] == b@[j],
        decreases n - i,
    {
        if a[i] != b[i] {
            return false;
        }
        i += 1;
    }
    proof {
        assert(a@ =~= b@);
    }
    true
}

/// Every offset the table records is the size of the instructions before
/// the hinted instruction it belongs to, with exactly that instruction's
/// hint codes under it.
pub proof fn lemma_offsets_are_prefix_sums(s: Seq<Instruction>, m: int, j: int)
    requires
        0 <= m <= s.len(),
        0 <= j < dict_model(s, m).len(),
    ensures
        exists|k: int|
            0 <= k < m && (#[trigger] s[k].hints@).len() > 0 && dict_model(s, m)[j] == (
                prefix_size(s, k),
                codes_of(s[k].hints@),
            ),
    decreases m,
{
    if m > 0 {
        if s[m - 1].hints@.len() > 0 && j == dict_model(s, m).len() - 1 {
            assert(dict_model(s, m)[j] == (prefix_size(s, m - 1), codes_of(s[m - 1].hints@)));
            assert((s[m - 1].hints@).len() > 0);
        } else {
            lemma_offsets_are_prefix_sums(s, m - 1, j);
            let k = choose|k: int|
                0 <= k < m - 1 && (#[trigger] s[k].hints@).len() > 0 && dict_model(s, m - 1)[j]
                    == (prefix_size(s, k), codes_of(s[k].hints@));
            assert(dict_model(s, m)[j] == dict_model(s, m - 1)[j]);
            assert((s[k].hints@).len() > 0);
        }
    }
}

/// A hint looked up under its own code comes back as itself: the map's
/// entries match their keys, and a code determines its hint.
pub proof fn lemma_code_to_hint_round_trip(m: Seq<(Vec<u8>, Hint)>, j: int, h: Hint)
    requires
        map_wf(m),
        0 <= j < m.len(),
        m[j].0@ == code_of(hint_view(h)),
    ensures
        hint_view(m[j].1) == hint_view(h),
{
    lemma_code_injective(hint_view(m[j].1), hint_view(h));
}

/// In a sound code map that covers a hint's code, the entry under that
/// code holds the hint itself: serializing a hint and looking the code up
/// leads back to the hint.
pub proof fn lemma_map_code_identifies_hint(m: Seq<(Vec<u8>, Hint)>, h: Hint)
    requires
        map_wf(m),
        map_has_code(m, code_of(hint_view(h))),
    ensures
        exists|j: int|
            0 <= j < m.len() && (#[trigger] m[j].0)@ == code_of(hint_view(h)) && hint_view(m[j].1)
                == hint_view(h),
{
    let j = choose|j: int| 0 <= j < m.len() && (#[trigger] m[j].0)@ == code_of(hint_view(h));
    lemma_code_to_hint_round_trip(m, j, h);
}

} // verus!
