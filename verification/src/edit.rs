//! Incremental document edits.
//!
//! A change batch is a finite ordered sequence of (range, replacement text)
//! edits. Each edit is applied against the buffer as already mutated by the
//! edits before it in the same batch; an edit whose range does not fit the
//! current buffer is a protocol error and the whole batch is rejected.

use vstd::prelude::*;

use crate::error::DocError;

verus! {

/// One incremental edit: replace the bytes at `start .. end` with `text`.
pub struct Edit {
    pub start: usize,
    pub end: usize,
    pub text: Vec<u8>,
}

/// An edit's range fits the buffer `c`.
pub open spec fn edit_valid(c: Seq<u8>, e: Edit) -> bool {
    e.start <= e.end <= c.len()
}

/// The buffer after one edit: the prefix before the range, the replacement
/// text, then the suffix after the range.
pub open spec fn apply_edit_spec(c: Seq<u8>, e: Edit) -> Seq<u8> {
    c.subrange(0, e.start as int) + e.text@ + c.subrange(e.end as int, c.len() as int)
}

/// The buffer after a whole batch, applied strictly in list order against the
/// progressively mutated buffer; `None` when some edit's range does not fit
/// the buffer it meets.
pub open spec fn apply_edits_spec(c: Seq<u8>, es: Seq<Edit>) -> Option<Seq<u8>>
    decreases es.len(),
{
    if es.len() == 0 {
        Some(c)
    } else if edit_valid(c, es[0]) {
        apply_edits_spec(apply_edit_spec(c, es[0]), es.skip(1))
    } else {
        None
    }
}

/// The byte offset of the position (`line`, `character`) in the buffer
/// `c`, scanning from byte `i`: lines are separated by the newline byte,
/// and the character index counts bytes within its line. `None` when the
/// buffer has no such line, or the line is shorter than the character
/// index. A position just past the last byte of a line is valid: it is the
/// insertion point at the line's end.
pub open spec fn spec_position_offset(c: Seq<u8>, i: int, line: nat, character: nat) -> Option<
    int,
>
    decreases c.len() - i, line,
{
    if line == 0 {
        if i + character <= c.len() && (forall|k: int| i <= k < i + character ==> c[k] != 10) {
            Some(i + character)
        } else {
            None
        }
    } else if i >= c.len() {
        None
    } else if c[i] == 10 {
        spec_position_offset(c, i + 1, (line - 1) as nat, character)
    } else {
        spec_position_offset(c, i + 1, line, character)
    }
}

/// Resolves a (line, character) position to its byte offset in `content`.
pub fn position_to_offset(content: &Vec<u8>, line: u64, character: u64) -> (r: Option<usize>)
    ensures
        r matches Some(o) ==> Some(o as int) == spec_position_offset(
            content@,
            0,
            line as nat,
            character as nat,
        ),
        r is None ==> spec_position_offset(content@, 0, line as nat, character as nat) is None,
{
    let mut i: usize = 0;
    let mut remaining: u64 = line;
    while remaining > 0 && i < content.len()
        invariant
            i <= content@.len(),
            spec_position_offset(content@, 0, line as nat, character as nat)
                == spec_position_offset(content@, i as int, remaining as nat, character as nat),
        decreases content@.len() - i,
    {
        if content[i] == 10 {
            remaining = remaining - 1;
        }
        i = i + 1;
    }
    if remaining > 0 {
        return None;
    }
    let start = i;
    let mut cnt: u64 = 0;
    while cnt < character
        invariant
            start <= i <= content@.len(),
            i - start == cnt,
            cnt <= character,
            forall|k: int| start <= k < i ==> content@[k] != 10,
            spec_position_offset(content@, 0, line as nat, character as nat)
                == spec_position_offset(content@, start as int, 0, character as nat),
        decreases character - cnt,
    {
        if i >= content.len() {
            return None;
        }
        if content[i] == 10 {
            return None;
        }
        i = i + 1;
        cnt = cnt + 1;
    }
    Some(i)
}

/// Applies one edit, or reports `InvalidRange` and leaves nothing changed.
pub fn apply_edit(c: &Vec<u8>, e: &Edit) -> (r: Result<Vec<u8>, DocError>)
    ensures
        match r {
            Ok(out) => edit_valid(c@, *e) && out@ == apply_edit_spec(c@, *e),
            Err(err) => !edit_valid(c@, *e) && err == DocError::InvalidRange,
        },
{
    if e.start > e.end || e.end > c.len() {
        return Err(DocError::InvalidRange);
    }
    let mut out: Vec<u8> = Vec::new();
    let mut i: usize = 0;
    while i < e.start
        invariant
            i <= e.start,
            e.start <= e.end <= c@.len(),
            out@ == c@.subrange(0, i as int),
        decreases e.start - i,
    {
        out.push(c[i]);
        i = i + 1;
        assert(out@ =~= c@.subrange(0, i as int));
    }
    let mut j: usize = 0;
    while j < e.text.len()
        invariant
            j <= e.text@.len(),
            e.start <= e.end <= c@.len(),
            out@ == c@.subrange(0, e.start as int) + e.text@.subrange(0, j as int),
        decreases e.text@.len() - j,
    {
        out.push(e.text[j]);
        j = j + 1;
        assert(out@ =~= c@.subrange(0, e.start as int) + e.text@.subrange(0, j as int));
    }
    assert(e.text@.subrange(0, e.text@.len() as int) =~= e.text@);
    let mut k: usize = e.end;
    while k < c.len()
        invariant
            e.start <= e.end <= k <= c@.len(),
            out@ == c@.subrange(0, e.start as int) + e.text@ + c@.subrange(
                e.end as int,
                k as int,
            ),
        decreases c@.len() - k,
    {
        out.push(c[k]);
        k = k + 1;
        assert(out@ =~= c@.subrange(0, e.start as int) + e.text@ + c@.subrange(
            e.end as int,
            k as int,
        ));
    }
    Ok(out)
}

/// One incremental edit given positionally, as the wire carries it: a
/// (line, character) range and the replacement text.
pub struct PosEdit {
    pub start_line: u64,
    pub start_character: u64,
    pub end_line: u64,
    pub end_character: u64,
    pub text: Vec<u8>,
}

/// The buffer after a positional batch: each edit's positions are resolved
/// against the buffer as mutated by the edits before it, exactly as offset
/// edits apply; `None` when a position does not exist or a range runs
/// backwards.
pub open spec fn apply_pos_edits_spec(c: Seq<u8>, pes: Seq<PosEdit>) -> Option<Seq<u8>>
    decreases pes.len(),
{
    if pes.len() == 0 {
        Some(c)
    } else {
        let pe = pes[0];
        let s = spec_position_offset(c, 0, pe.start_line as nat, pe.start_character as nat);
        let e = spec_position_offset(c, 0, pe.end_line as nat, pe.end_character as nat);
        match (s, e) {
            (Some(so), Some(eo)) => if so <= eo {
                apply_pos_edits_spec(
                    c.subrange(0, so) + pe.text@ + c.subrange(eo, c.len() as int),
                    pes.skip(1),
                )
            } else {
                None
            },
            _ => None,
        }
    }
}

/// A resolved position always lies within the buffer.
proof fn lemma_position_offset_in_range(c: Seq<u8>, i: int, line: nat, character: nat)
    requires
        0 <= i <= c.len(),
    ensures
        spec_position_offset(c, i, line, character) matches Some(o) ==> i <= o <= c.len(),
    decreases c.len() - i, line,
{
    if line == 0 {
    } else if i >= c.len() {
    } else if c[i] == 10 {
        lemma_position_offset_in_range(c, i + 1, (line - 1) as nat, character);
    } else {
        lemma_position_offset_in_range(c, i + 1, line, character);
    }
}

/// Appending one edit to a batch applies it to the batch's result.
proof fn lemma_apply_edits_push(c: Seq<u8>, es: Seq<Edit>, e: Edit)
    ensures
        apply_edits_spec(c, es.push(e)) == match apply_edits_spec(c, es) {
            Some(m) => if edit_valid(m, e) {
                Some(apply_edit_spec(m, e))
            } else {
                None::<Seq<u8>>
            },
            None => None::<Seq<u8>>,
        },
    decreases es.len(),
{
    if es.len() == 0 {
        assert(es.push(e)[0] == e);
        assert(es.push(e).skip(1) =~= Seq::<Edit>::empty());
        assert(apply_edits_spec(c, es) == Some(c));
        if edit_valid(c, e) {
            assert(apply_edits_spec(c, es.push(e)) == apply_edits_spec(
                apply_edit_spec(c, e),
                Seq::<Edit>::empty(),
            ));
            assert(apply_edits_spec(apply_edit_spec(c, e), Seq::<Edit>::empty()) == Some(
                apply_edit_spec(c, e),
            ));
        } else {
            assert(apply_edits_spec(c, es.push(e)) is None);
        }
    } else {
        assert(es.push(e)[0] == es[0]);
        assert(es.push(e).skip(1) =~= es.skip(1).push(e));
        if edit_valid(c, es[0]) {
            lemma_apply_edits_push(apply_edit_spec(c, es[0]), es.skip(1), e);
            assert(apply_edits_spec(c, es.push(e)) == apply_edits_spec(
                apply_edit_spec(c, es[0]),
                es.skip(1).push(e),
            ));
            assert(apply_edits_spec(c, es) == apply_edits_spec(
                apply_edit_spec(c, es[0]),
                es.skip(1),
            ));
        } else {
            assert(apply_edits_spec(c, es.push(e)) is None);
            assert(apply_edits_spec(c, es) is None);
        }
    }
}

/// Resolves a positional batch against `content` into offset edits, each
/// against the buffer as mutated by the edits before it. The resolved batch
/// applies to `content` with exactly the effect the positional batch
/// describes; a position outside the buffer or a backwards range is an
/// `InvalidRange`.
pub fn resolve_pos_edits(content: &Vec<u8>, pos_edits: &Vec<PosEdit>) -> (r: Result<
    Vec<Edit>,
    DocError,
>)
    ensures
        match r {
            Ok(es) => apply_edits_spec(content@, es@) == apply_pos_edits_spec(
                content@,
                pos_edits@,
            ) && apply_pos_edits_spec(content@, pos_edits@) is Some,
            Err(err) => err == DocError::InvalidRange && apply_pos_edits_spec(
                content@,
                pos_edits@,
            ) is None,
        },
{
    let mut cur: Vec<u8> = content.clone();
    let mut out: Vec<Edit> = Vec::new();
    let mut i: usize = 0;
    assert(pos_edits@.skip(0) =~= pos_edits@);
    assert(out@ =~= Seq::<Edit>::empty());
    while i < pos_edits.len()
        invariant
            i <= pos_edits@.len(),
            apply_edits_spec(content@, out@) == Some(cur@),
            apply_pos_edits_spec(content@, pos_edits@) == apply_pos_edits_spec(
                cur@,
                pos_edits@.skip(i as int),
            ),
        decreases pos_edits@.len() - i,
    {
        assert(pos_edits@.skip(i as int)[0] == pos_edits@[i as int]);
        let pe = &pos_edits[i];
        let start = match position_to_offset(&cur, pe.start_line, pe.start_character) {
            Some(o) => o,
            None => {
                return Err(DocError::InvalidRange);
            },
        };
        let end = match position_to_offset(&cur, pe.end_line, pe.end_character) {
            Some(o) => o,
            None => {
                return Err(DocError::InvalidRange);
            },
        };
        if start > end {
            return Err(DocError::InvalidRange);
        }
        proof {
            lemma_position_offset_in_range(cur@, 0, pe.start_line as nat, pe.start_character as nat);
            lemma_position_offset_in_range(cur@, 0, pe.end_line as nat, pe.end_character as nat);
        }
        let e = Edit { start, end, text: pe.text.clone() };
        let next = match apply_edit(&cur, &e) {
            Ok(c) => c,
            Err(_) => {
                // Both offsets lie within the buffer, so the edit fits.
                return Err(DocError::InvalidRange);
            },
        };
        proof {
            lemma_apply_edits_push(content@, out@, e);
            assert(pos_edits@.skip(i as int).skip(1) =~= pos_edits@.skip(i as int + 1));
        }
        out.push(e);
        cur = next;
        i = i + 1;
    }
    assert(pos_edits@.skip(i as int) =~= Seq::<PosEdit>::empty());
    Ok(out)
}

/// Applies a batch of edits in list order; on `InvalidRange` the input buffer
/// is not the store's: the caller discards the partial result, so a failed
/// batch is a no-op on tracked state.
pub fn apply_edits(c: &Vec<u8>, edits: &Vec<Edit>) -> (r: Result<Vec<u8>, DocError>)
    ensures
        match r {
            Ok(out) => apply_edits_spec(c@, edits@) == Some(out@),
            Err(err) => apply_edits_spec(c@, edits@) is None && err == DocError::InvalidRange,
        },
{
    let mut cur: Vec<u8> = c.clone();
    let mut i: usize = 0;
    assert(edits@.skip(0) =~= edits@);
    while i < edits.len()
        invariant
            i <= edits@.len(),
            apply_edits_spec(c@, edits@) == apply_edits_spec(cur@, edits@.skip(i as int)),
        decreases edits@.len() - i,
    {
        assert(edits@.skip(i as int)[0] == edits@[i as int]);
        match apply_edit(&cur, &edits[i]) {
            Ok(next) => {
                assert(edits@.skip(i as int).skip(1) =~= edits@.skip(i as int + 1));
                cur = next;
                i = i + 1;
            },
            Err(err) => {
                return Err(err);
            },
        }
    }
    assert(edits@.skip(i as int) =~= Seq::<Edit>::empty());
    Ok(cur)
}

} // verus!
