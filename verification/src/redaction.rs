//! The redaction rule: split content into whitespace-separated tokens, replace
//! every token whose UTF-8 encoding is exactly five bytes long with a fixed
//! marker, and rejoin the tokens with a single space after each one — including
//! a trailing space after the last token, which callers depend on.

use vstd::prelude::*;
use vstd::string::StrSliceExecFns;
use vstd::string::StringExecFns;

verus! {

/// True for the characters that separate tokens: the Unicode white-space set.
pub open spec fn is_space_char(c: char) -> bool {
    let u = c as u32;
    u == 0x09 || u == 0x0A || u == 0x0B || u == 0x0C || u == 0x0D || u == 0x20 || u == 0x85
        || u == 0xA0 || u == 0x1680 || (0x2000 <= u && u <= 0x200A) || u == 0x2028 || u == 0x2029
        || u == 0x202F || u == 0x205F || u == 0x3000
}

/// How many bytes the UTF-8 encoding of one character takes.
pub open spec fn char_utf8_width(c: char) -> nat {
    if (c as u32) < 0x80 {
        1
    } else if (c as u32) < 0x800 {
        2
    } else if (c as u32) < 0x10000 {
        3
    } else {
        4
    }
}

/// How many bytes the UTF-8 encoding of a character sequence takes.
pub open spec fn byte_len(w: Seq<char>) -> nat
    decreases w.len(),
{
    if w.len() == 0 {
        0
    } else {
        byte_len(w.drop_last()) + char_utf8_width(w.last())
    }
}

/// What a five-byte token becomes: five equals signs and the space the
/// replacement itself carries (the join then adds one more).
pub open spec fn redaction_marker() -> Seq<char> {
    seq!['=', '=', '=', '=', '=', ' ']
}

/// One token after redaction: replaced by the marker when its UTF-8 encoding
/// is exactly five bytes, otherwise kept as it is.
pub open spec fn redact_token(w: Seq<char>) -> Seq<char> {
    if byte_len(w) == 5 {
        redaction_marker()
    } else {
        w
    }
}

/// The whitespace split of `s`, continued from a partial token `cur` already
/// read: maximal runs of non-space characters, in order, with no empty tokens.
pub open spec fn split_tokens_from(s: Seq<char>, cur: Seq<char>) -> Seq<Seq<char>>
    decreases s.len(),
{
    if s.len() == 0 {
        if cur.len() == 0 {
            Seq::empty()
        } else {
            seq![cur]
        }
    } else if is_space_char(s[0]) {
        if cur.len() == 0 {
            split_tokens_from(s.drop_first(), cur)
        } else {
            seq![cur] + split_tokens_from(s.drop_first(), Seq::empty())
        }
    } else {
        split_tokens_from(s.drop_first(), cur.push(s[0]))
    }
}

/// The whitespace-separated tokens of `s`, in order, with no empty tokens.
pub open spec fn split_tokens(s: Seq<char>) -> Seq<Seq<char>> {
    split_tokens_from(s, Seq::empty())
}

/// The redacted tokens rejoined, one space after each token.
pub open spec fn join_redacted(tokens: Seq<Seq<char>>) -> Seq<char>
    decreases tokens.len(),
{
    if tokens.len() == 0 {
        Seq::empty()
    } else {
        redact_token(tokens[0]) + seq![' '] + join_redacted(tokens.drop_first())
    }
}

/// The whole redaction rule applied to a character sequence.
pub open spec fn redaction(s: Seq<char>) -> Seq<char> {
    join_redacted(split_tokens(s))
}

proof fn lemma_join_redacted_cons(w: Seq<char>, tokens: Seq<Seq<char>>)
    ensures
        join_redacted(seq![w] + tokens) == redact_token(w) + seq![' '] + join_redacted(tokens),
{
    let all = seq![w] + tokens;
    assert(all[0] == w);
    assert(all.drop_first() =~= tokens);
}

fn is_space(c: char) -> (b: bool)
    ensures
        b == is_space_char(c),
{
    let u: u32 = c as u32;
    u == 0x09 || u == 0x0A || u == 0x0B || u == 0x0C || u == 0x0D || u == 0x20 || u == 0x85
        || u == 0xA0 || u == 0x1680 || (0x2000 <= u && u <= 0x200A) || u == 0x2028 || u == 0x2029
        || u == 0x202F || u == 0x205F || u == 0x3000
}

fn char_width(c: char) -> (w: usize)
    ensures
        w == char_utf8_width(c),
{
    let u: u32 = c as u32;
    if u < 0x80 {
        1
    } else if u < 0x800 {
        2
    } else if u < 0x10000 {
        3
    } else {
        4
    }
}

/// A byte count capped just above the threshold the rule tests, so the running
/// total in `token_has_five_bytes` can never overflow.
spec fn capped_byte_len(n: nat) -> nat {
    if n > 6 {
        6
    } else {
        n
    }
}

fn token_has_five_bytes(t: &str) -> (b: bool)
    ensures
        b == (byte_len(t@) == 5),
{
    let n = t.unicode_len();
    let mut i: usize = 0;
    let mut total: usize = 0;
    while i < n
        invariant
            i <= n,
            n == t@.len(),
            total == capped_byte_len(byte_len(t@.take(i as int))),
        decreases n - i,
    {
        let w = char_width(t.get_char(i));
        proof {
            assert(t@.take(i as int + 1).drop_last() =~= t@.take(i as int));
            assert(t@.take(i as int + 1).last() == t@[i as int]);
        }
        if total < 6 {
            total = total + w;
            if total > 6 {
                total = 6;
            }
        }
        i = i + 1;
    }
    proof {
        assert(t@.take(n as int) =~= t@);
    }
    total == 5
}

/// Appends one redacted token and the joining space to `out`.
fn push_token(token: &str, out: &mut String)
    ensures
        final(out)@ == old(out)@ + redact_token(token@) + seq![' '],
{
    if token_has_five_bytes(token) {
        proof {
            reveal_strlit("===== ");
            assert("===== "@ =~= redaction_marker());
        }
        out.append("===== ");
    } else {
        out.append(token);
    }
    proof {
        reveal_strlit(" ");
        assert(" "@ =~= seq![' ']);
    }
    out.append(" ");
}

/// Appends the redaction of `input` to `new_content`.
pub fn create_redaction(input: String, new_content: &mut String)
    ensures
        final(new_content)@ == old(new_content)@ + redaction(input@),
{
    let n = input.as_str().unicode_len();
    let mut i: usize = 0;
    let mut token: String = String::new();
    proof {
        assert(input@.skip(0) =~= input@);
    }
    while i < n
        invariant
            i <= n,
            n == input@.len(),
            old(new_content)@ + redaction(input@) == new_content@ + join_redacted(
                split_tokens_from(input@.skip(i as int), token@),
            ),
        decreases n - i,
    {
        let ghost rest = input@.skip(i as int);
        proof {
            assert(rest[0] == input@[i as int]);
            assert(rest.drop_first() =~= input@.skip(i as int + 1));
        }
        let c = input.as_str().get_char(i);
        if is_space(c) {
            if !token.as_str().is_empty() {
                proof {
                    lemma_join_redacted_cons(
                        token@,
                        split_tokens_from(input@.skip(i as int + 1), Seq::empty()),
                    );
                }
                push_token(token.as_str(), new_content);
                token = String::new();
            }
        } else {
            let ghost before = token@;
            let piece = input.as_str().substring_char(i, i + 1);
            token.append(piece);
            proof {
                assert(piece@ =~= seq![input@[i as int]]);
                assert(token@ =~= before.push(input@[i as int]));
            }
        }
        i = i + 1;
    }
    proof {
        assert(input@.skip(n as int) =~= Seq::<char>::empty());
    }
    if !token.as_str().is_empty() {
        proof {
            lemma_join_redacted_cons(token@, Seq::empty());
            assert(split_tokens_from(Seq::<char>::empty(), token@) =~= seq![token@]);
        }
        push_token(token.as_str(), new_content);
    }
    proof {
        assert(join_redacted(Seq::<Seq<char>>::empty()) =~= Seq::<char>::empty());
    }
}

} // verus!
