//! Byte budgets of tool results.

use crate::domain::types::{ToolOutput, ToolOutputView};
use crate::json::JsonValue;
use crate::text::{
    byte_len, char_len, chars_of, decimal, decimal_text, lemma_utf8_len_concat,
    lemma_utf8_len_monotone, lemma_utf8_len_push, text_of, utf8_len,
};
use vstd::prelude::*;
use vstd::string::*;
use vstd::utf8::is_ascii_chars_encode_utf8;

verus! {

/// Marks a text that was cut.
pub const TRUNCATION_SUFFIX: &'static str = "\n\n[output truncated]";

/// The longest prefix of `s` that fits `limit` bytes.
pub open spec fn fitting_prefix(s: Seq<char>, limit: nat) -> Seq<char>
    decreases s.len(),
{
    if s.len() == 0 || utf8_len(s) <= limit {
        s
    } else {
        fitting_prefix(s.drop_last(), limit)
    }
}

/// `content` within a budget of bytes: whole where it fits; otherwise the
/// longest prefix that leaves room for the suffix, and the suffix, of which
/// only a part is shown where the budget is smaller than the suffix.
pub open spec fn truncated(content: Seq<char>, budget: nat) -> Seq<char> {
    if utf8_len(content) <= budget {
        content
    } else if budget <= utf8_len(TRUNCATION_SUFFIX@) {
        TRUNCATION_SUFFIX@.take(budget as int)
    } else {
        fitting_prefix(content, (budget - utf8_len(TRUNCATION_SUFFIX@)) as nat)
            + TRUNCATION_SUFFIX@
    }
}

/// The object that stands in for metadata of `bytes` bytes.
pub open spec fn metadata_stub(bytes: nat) -> Seq<char> {
    "{\"_original_bytes\":"@ + decimal(bytes) + ",\"_truncated\":true}"@
}

/// Metadata within its own budget.
pub open spec fn bounded_metadata(metadata: Seq<char>, metadata_max_bytes: usize) -> Seq<char> {
    if utf8_len(metadata) > metadata_max_bytes {
        metadata_stub(utf8_len(metadata))
    } else {
        metadata
    }
}

/// What the metadata leaves of the whole budget.
pub open spec fn content_budget(metadata: Seq<char>, output_max_bytes: usize) -> nat {
    if utf8_len(metadata) <= output_max_bytes {
        (output_max_bytes - utf8_len(metadata)) as nat
    } else {
        0
    }
}

/// A tool output within its budgets.
pub open spec fn bounded_output(
    output: ToolOutputView,
    output_max_bytes: usize,
    metadata_max_bytes: usize,
) -> ToolOutputView {
    let metadata = bounded_metadata(output.metadata, metadata_max_bytes);
    ToolOutputView {
        content: truncated(output.content, content_budget(metadata, output_max_bytes)),
        is_error: output.is_error,
        metadata,
    }
}

proof fn lemma_suffix_is_ascii()
    ensures
        TRUNCATION_SUFFIX@.len() == 20,
        utf8_len(TRUNCATION_SUFFIX@) == 20,
        forall|n: int| 0 <= n <= 20 ==> #[trigger] utf8_len(TRUNCATION_SUFFIX@.take(n)) == n,
{
    reveal_strlit("\n\n[output truncated]");
    let s = TRUNCATION_SUFFIX@;
    assert(vstd::utf8::is_ascii_chars(s));
    is_ascii_chars_encode_utf8(s);
    assert forall|n: int| 0 <= n <= 20 implies #[trigger] utf8_len(s.take(n)) == n by {
        assert(vstd::utf8::is_ascii_chars(s.take(n)));
        is_ascii_chars_encode_utf8(s.take(n));
    }
}

proof fn lemma_fitting_prefix(s: Seq<char>, limit: nat, n: int)
    requires
        0 <= n < s.len(),
        utf8_len(s.take(n)) <= limit,
        utf8_len(s.take(n + 1)) > limit,
    ensures
        fitting_prefix(s, limit) == s.take(n),
    decreases s.len(),
{
    lemma_utf8_len_monotone(s, n + 1, s.len() as int);
    assert(s.take(s.len() as int) =~= s);
    let front = s.drop_last();
    if n == s.len() - 1 {
        assert(front =~= s.take(n));
        assert(fitting_prefix(front, limit) == front);
    } else {
        assert(front.take(n) =~= s.take(n));
        assert(front.take(n + 1) =~= s.take(n + 1));
        lemma_fitting_prefix(front, limit, n);
    }
}

/// Cuts a text to a budget of bytes.
pub fn truncate_content_to_budget(content: &str, budget: usize) -> (r: String)
    ensures
        r@ == truncated(content@, budget as nat),
{
    proof {
        lemma_suffix_is_ascii();
    }
    if byte_len(content) <= budget {
        return content.to_owned();
    }
    let suffix_len: usize = byte_len(TRUNCATION_SUFFIX);
    if budget <= suffix_len {
        let chars = chars_of(TRUNCATION_SUFFIX);
        let r = text_of(&chars, 0, budget);
        proof {
            assert(r@ =~= TRUNCATION_SUFFIX@.take(budget as int));
        }
        return r;
    }
    let limit: usize = budget - suffix_len;
    let chars = chars_of(content);
    let mut prefix = String::new();
    let mut used: usize = 0;
    let mut i: usize = 0;
    proof {
        assert(chars@.take(0) =~= Seq::<char>::empty());
        assert(chars@.take(chars@.len() as int) =~= chars@);
    }
    while i < chars.len()
        invariant
            i <= chars.len(),
            chars@ == content@,
            prefix@ == chars@.take(i as int),
            used == utf8_len(chars@.take(i as int)),
            used <= limit,
            limit + suffix_len == budget,
            limit > 0,
            utf8_len(chars@) > budget,
            suffix_len == utf8_len(TRUNCATION_SUFFIX@),
            chars@.take(chars@.len() as int) == chars@,
        decreases chars.len() - i,
    {
        let c = chars[i];
        let width: usize = char_len(c);
        proof {
            assert(chars@.take(i + 1) =~= chars@.take(i as int).push(c));
            lemma_utf8_len_push(chars@.take(i as int), c);
        }
        if width > limit - used {
            proof {
                lemma_fitting_prefix(chars@, limit as nat, i as int);
            }
            prefix.append(TRUNCATION_SUFFIX);
            return prefix;
        }
        prefix.push(c);
        used += width;
        i += 1;
    }
    prefix.append(TRUNCATION_SUFFIX);
    prefix
}

/// Fits a tool output into its budgets.
pub fn normalize_tool_output(
    output: ToolOutput,
    output_max_bytes: usize,
    metadata_max_bytes: usize,
) -> (r: ToolOutput)
    ensures
        r.deep_view() == bounded_output(output.deep_view(), output_max_bytes, metadata_max_bytes),
{
    let metadata_size: usize = byte_len(output.metadata.text());
    let metadata = if metadata_size > metadata_max_bytes {
        JsonValue::from_compact(
            "{\"_original_bytes\":".to_owned().concat(
                decimal_text(metadata_size as u64).as_str(),
            ).concat(",\"_truncated\":true}"),
        )
    } else {
        output.metadata
    };
    let budget: usize = output_max_bytes.saturating_sub(byte_len(metadata.text()));
    ToolOutput {
        content: truncate_content_to_budget(output.content.as_str(), budget),
        is_error: output.is_error,
        metadata,
    }
}

/// A cut text never exceeds its budget.
pub proof fn law_truncated_fits(content: Seq<char>, budget: nat)
    ensures
        utf8_len(truncated(content, budget)) <= budget,
{
    lemma_suffix_is_ascii();
    if utf8_len(content) > budget && budget > utf8_len(TRUNCATION_SUFFIX@) {
        let limit = (budget - utf8_len(TRUNCATION_SUFFIX@)) as nat;
        lemma_fitting_prefix_fits(content, limit);
        lemma_utf8_len_concat(fitting_prefix(content, limit), TRUNCATION_SUFFIX@);
    }
}

proof fn lemma_fitting_prefix_fits(s: Seq<char>, limit: nat)
    ensures
        utf8_len(fitting_prefix(s, limit)) <= limit,
        fitting_prefix(s, limit).is_prefix_of(s),
    decreases s.len(),
{
    if s.len() > 0 && utf8_len(s) > limit {
        lemma_fitting_prefix_fits(s.drop_last(), limit);
    }
}

/// Content and metadata of a bounded output fit the whole budget together,
/// wherever the metadata alone does.
pub proof fn law_output_fits_budget(
    output: ToolOutputView,
    output_max_bytes: usize,
    metadata_max_bytes: usize,
)
    ensures
        ({
            let r = bounded_output(output, output_max_bytes, metadata_max_bytes);
            utf8_len(r.metadata) <= output_max_bytes ==> utf8_len(r.content) + utf8_len(r.metadata)
                <= output_max_bytes
        }),
        utf8_len(output.metadata) <= metadata_max_bytes < output_max_bytes ==> ({
            let r = bounded_output(output, output_max_bytes, metadata_max_bytes);
            utf8_len(r.content) + utf8_len(r.metadata) <= output_max_bytes
        }),
{
    let metadata = bounded_metadata(output.metadata, metadata_max_bytes);
    law_truncated_fits(output.content, content_budget(metadata, output_max_bytes));
}

/// Bounding an output a second time changes nothing, wherever the object that
/// stands in for oversized metadata fits the metadata budget itself.
pub proof fn law_bounding_is_idempotent(
    output: ToolOutputView,
    output_max_bytes: usize,
    metadata_max_bytes: usize,
)
    requires
        utf8_len(bounded_metadata(output.metadata, metadata_max_bytes)) <= metadata_max_bytes,
    ensures
        ({
            let once = bounded_output(output, output_max_bytes, metadata_max_bytes);
            bounded_output(once, output_max_bytes, metadata_max_bytes) == once
        }),
{
    let metadata = bounded_metadata(output.metadata, metadata_max_bytes);
    law_truncated_fits(output.content, content_budget(metadata, output_max_bytes));
}

} // verus!
