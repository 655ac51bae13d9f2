//! Composition of the user message from the prompt and the piped text.

use vstd::prelude::*;
use vstd::string::{StrSliceExecFns, StringExecFns};

verus! {

/// The characters with Unicode's White_Space property, which are the ones
/// that `char::is_whitespace` accepts and `str::trim` removes.
pub open spec fn is_white_space(c: char) -> bool {
    let u = c as u32;
    (0x9 <= u && u <= 0xd) || u == 0x20 || u == 0x85 || u == 0xa0 || u == 0x1680 || (0x2000 <= u
        && u <= 0x200a) || u == 0x2028 || u == 0x2029 || u == 0x202f || u == 0x205f || u == 0x3000
}

/// A text is blank when trimming its white space leaves nothing.
pub open spec fn is_blank(s: Seq<char>) -> bool {
    forall|i: int| 0 <= i < s.len() ==> is_white_space(#[trigger] s[i])
}

/// Opening of the message sent when no context was piped in.
pub open spec fn task_head() -> Seq<char> {
    "TASK:\n"@
}

/// Closing of the message sent when no context was piped in.
pub open spec fn task_rules() -> Seq<char> {
    "\n\nRules:\n- If no context is provided, use your general knowledge to complete the task."@
}

/// Opening of the message that carries a context, up to the context itself.
pub open spec fn context_head() -> Seq<char> {
    "You are an assistant that *must* use the CONTEXT provided below.\n\nCONTEXT:\n\"\"\"\n"@
}

/// What stands between the context and the task.
pub open spec fn context_to_task() -> Seq<char> {
    "\n\"\"\"\n\nTASK:\n"@
}

/// Closing of the message that carries a context.
pub open spec fn context_rules() -> Seq<char> {
    "\n\nRules:\n- Base your answer ONLY on the context unless the task requires outside knowledge.\n- If the context is unclear, say so and ask a clarifying question.\n- Do not fabricate details not present in the context."@
}

/// The message for a prompt alone.
pub open spec fn task_message(prompt: Seq<char>) -> Seq<char> {
    task_head() + prompt + task_rules()
}

/// The message for a prompt grounded in a context.
pub open spec fn context_message(prompt: Seq<char>, piped: Seq<char>) -> Seq<char> {
    context_head() + piped + context_to_task() + prompt + context_rules()
}

/// The message sent for a prompt and the text piped in: the context template
/// unless the piped text is blank, with the piped text embedded untrimmed.
pub open spec fn composed_message(prompt: Seq<char>, piped: Seq<char>) -> Seq<char> {
    if is_blank(piped) {
        task_message(prompt)
    } else {
        context_message(prompt, piped)
    }
}

/// Whether `needle` occurs in `hay` as a contiguous run.
pub open spec fn contains(hay: Seq<char>, needle: Seq<char>) -> bool {
    exists|i: int|
        0 <= i && i + needle.len() <= hay.len() && #[trigger] hay.subrange(i, i + needle.len())
            == needle
}

/// No character from index `k` on is `c`.
pub open spec fn lacks_from(s: Seq<char>, c: char, k: int) -> bool
    decreases s.len() - k,
{
    if k >= s.len() {
        true
    } else {
        s[k] != c && lacks_from(s, c, k + 1)
    }
}

proof fn lemma_lacks_from(s: Seq<char>, c: char, k: int, i: int)
    requires
        0 <= k <= i < s.len(),
        lacks_from(s, c, k),
    ensures
        s[i] != c,
    decreases i - k,
{
    if k < i {
        lemma_lacks_from(s, c, k + 1, i);
    }
}

/// With a context that is not blank, the message is the context template:
/// the piped text stands verbatim inside the CONTEXT block, and the prompt
/// follows on the line after the TASK heading.
pub proof fn lemma_context_embeds_both(prompt: Seq<char>, piped: Seq<char>)
    requires
        prompt.len() > 0,
        !is_blank(piped),
    ensures
        composed_message(prompt, piped) == context_message(prompt, piped),
        ({
            let m = composed_message(prompt, piped);
            let a: int = context_head().len() as int;
            let b: int = a + piped.len() + context_to_task().len();
            &&& m.subrange(a, a + piped.len()) == piped
            &&& m.subrange(a - 4, a) == "\"\"\"\n"@
            &&& m.subrange(b, b + prompt.len()) == prompt
            &&& m.subrange(b - 6, b) == "TASK:\n"@
        }),
{
    reveal_strlit(
        "You are an assistant that *must* use the CONTEXT provided below.\n\nCONTEXT:\n\"\"\"\n",
    );
    reveal_strlit("\n\"\"\"\n\nTASK:\n");
    reveal_strlit("\"\"\"\n");
    reveal_strlit("TASK:\n");
    let m = composed_message(prompt, piped);
    let a: int = context_head().len() as int;
    let b: int = a + piped.len() + context_to_task().len();
    assert(m.subrange(a, a + piped.len()) =~= piped);
    assert(m.subrange(b, b + prompt.len()) =~= prompt);
    assert(m.subrange(a - 4, a) =~= "\"\"\"\n"@);
    assert(m.subrange(b - 6, b) =~= "TASK:\n"@);
}

/// With a blank context the message is the template for a prompt alone, and
/// the word CONTEXT does not occur in it unless the prompt holds it.
pub proof fn lemma_blank_context_omitted(prompt: Seq<char>, piped: Seq<char>)
    requires
        is_blank(piped),
        !contains(prompt, "CONTEXT"@),
    ensures
        composed_message(prompt, piped) == task_message(prompt),
        !contains(composed_message(prompt, piped), "CONTEXT"@),
{
    reveal_strlit("CONTEXT");
    reveal_strlit("TASK:\n");
    reveal_strlit(
        "\n\nRules:\n- If no context is provided, use your general knowledge to complete the task.",
    );
    let w = "CONTEXT"@;
    let h = task_head();
    let t = task_rules();
    let m = task_message(prompt);
    assert(w.len() == 7 && w[0] == 'C');
    assert(forall|k: int| 0 <= k < 7 ==> w[k] != '\n') by {
        assert(w =~= seq!['C', 'O', 'N', 'T', 'E', 'X', 'T']);
    }
    assert(h.len() == 6 && h[5] == '\n');
    assert(forall|k: int| 0 <= k < 6 ==> h[k] != 'C') by {
        assert(h =~= seq!['T', 'A', 'S', 'K', ':', '\n']);
    }
    assert(t[0] == '\n');
    assert(lacks_from(t, 'C', 0)) by {
        reveal_with_fuel(lacks_from, 90);
    }
    let n: int = h.len() as int + prompt.len();
    if contains(m, w) {
        let i = choose|i: int|
            0 <= i && i + w.len() <= m.len() && #[trigger] m.subrange(i, i + w.len()) == w;
        assert(m.subrange(i, i + 7)[0] == m[i]);
        if i < 6 {
            assert(m[i] == h[i]);
        } else if i >= n {
            lemma_lacks_from(t, 'C', 0, i - n);
            assert(m[i] == t[i - n]);
        } else if i + 7 <= n {
            assert(prompt.subrange(i - 6, i - 6 + 7) =~= m.subrange(i, i + 7));
        } else {
            assert(m.subrange(i, i + 7)[n - i] == m[n]);
            assert(m[n] == t[0]);
        }
    }
}

/// The message depends on the prompt and the piped text alone: two
/// compositions of the same inputs give the same characters.
pub proof fn lemma_compose_deterministic(
    prompt: Seq<char>,
    piped: Seq<char>,
    first: Seq<char>,
    second: Seq<char>,
)
    requires
        first == composed_message(prompt, piped),
        second == composed_message(prompt, piped),
    ensures
        first == second,
{
}

/// Tells whether `c` is white space, as `char::is_whitespace` does.
pub fn is_white_space_char(c: char) -> (r: bool)
    ensures
        r == is_white_space(c),
{
    let u = c as u32;
    (0x9 <= u && u <= 0xd) || u == 0x20 || u == 0x85 || u == 0xa0 || u == 0x1680 || (0x2000 <= u
        && u <= 0x200a) || u == 0x2028 || u == 0x2029 || u == 0x202f || u == 0x205f || u == 0x3000
}

/// Tells whether `s` trims to the empty string.
pub fn trims_to_empty(s: &str) -> (r: bool)
    ensures
        r == is_blank(s@),
{
    let n = s.unicode_len();
    let mut i: usize = 0;
    while i < n
        invariant
            n == s@.len(),
            i <= n,
            forall|j: int| 0 <= j < i ==> is_white_space(#[trigger] s@[j]),
        decreases n - i,
    {
        if !is_white_space_char(s.get_char(i)) {
            return false;
        }
        i = i + 1;
    }
    true
}

/// Builds the user message for `prompt` and the text piped in.
pub fn compose_message(prompt: &str, piped_text: &str) -> (r: String)
    ensures
        r@ == composed_message(prompt@, piped_text@),
{
    if trims_to_empty(piped_text) {
        let r = String::from_str("TASK:\n");
        let r = r.concat(prompt);
        r.concat(
            "\n\nRules:\n- If no context is provided, use your general knowledge to complete the task.",
        )
    } else {
        let r = String::from_str(
            "You are an assistant that *must* use the CONTEXT provided below.\n\nCONTEXT:\n\"\"\"\n",
        );
        let r = r.concat(piped_text);
        let r = r.concat("\n\"\"\"\n\nTASK:\n");
        let r = r.concat(prompt);
        r.concat(
            "\n\nRules:\n- Base your answer ONLY on the context unless the task requires outside knowledge.\n- If the context is unclear, say so and ask a clarifying question.\n- Do not fabricate details not present in the context.",
        )
    }
}

} // verus!
