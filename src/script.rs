//! The script block of a single-file component: the text between its one
//! `<script>` tag and its one `</script>` tag.
use vstd::prelude::*;

verus! {

/// The text holds no single script block.
#[derive(Clone, Copy, Debug, PartialEq, Eq, Structural)]
pub struct InvalidScriptError;

/// `t` occurs in `s` at position `i`.
pub open spec fn occurs_at(s: Seq<char>, t: Seq<char>, i: int) -> bool {
    0 <= i && i + t.len() <= s.len() && s.subrange(i, i + t.len()) == t
}

pub open spec fn occurs(s: Seq<char>, t: Seq<char>) -> bool {
    exists|i: int| occurs_at(s, t, i)
}

/// `i` is the position of the first occurrence of `t` in `s`.
pub open spec fn is_first_occurrence(s: Seq<char>, t: Seq<char>, i: int) -> bool {
    occurs_at(s, t, i) && forall|j: int| 0 <= j < i ==> !occurs_at(s, t, j)
}

/// Relies on nom's `bytes::complete::take_until`, which on `&str` splits the
/// input at the first occurrence of the tag (`str::find`) into the rest and the
/// text before it, and fails where the tag does not occur.
#[verifier::external_body]
fn take_until(input: &str, tag: &str) -> (r: Option<(String, String)>)
    ensures
        r is None <==> !occurs(input@, tag@),
        r matches Some((rest, taken)) ==> {
            &&& is_first_occurrence(input@, tag@, taken@.len() as int)
            &&& taken@ == input@.take(taken@.len() as int)
            &&& rest@ == input@.skip(taken@.len() as int)
        },
{
    let res: nom::IResult<&str, &str> = nom::bytes::complete::take_until(tag)(input);
    match res {
        Ok((rest, taken)) => Some((rest.to_string(), taken.to_string())),
        Err(_) => None,
    }
}

pub open spec fn open_tag() -> Seq<char> {
    "<script>"@
}

pub open spec fn close_tag() -> Seq<char> {
    "</script>"@
}

/// The script block of `s`: what stands between the first `<script>` and the
/// first `</script>` after it, where neither tag occurs again.
pub open spec fn script_block(s: Seq<char>, body: Seq<char>) -> bool {
    exists|i: int, j: int|
        {
            &&& #[trigger] is_first_occurrence(s, open_tag(), i)
            &&& #[trigger] is_first_occurrence(s.skip(i + open_tag().len()), close_tag(), j)
            &&& !occurs(s.skip(i + open_tag().len()), open_tag())
            &&& !occurs(s.skip(i + open_tag().len() + j + close_tag().len()), close_tag())
            &&& body == s.skip(i + open_tag().len()).take(j)
        }
}

proof fn lemma_first_occurrence_unique(s: Seq<char>, t: Seq<char>, i1: int, i2: int)
    requires
        is_first_occurrence(s, t, i1),
        is_first_occurrence(s, t, i2),
    ensures
        i1 == i2,
{
    if i1 < i2 {
        assert(!occurs_at(s, t, i1));
    } else if i2 < i1 {
        assert(!occurs_at(s, t, i2));
    }
}

/// The text without its first `n` characters.
fn skip_chars(s: &String, n: usize) -> (r: String)
    requires
        n <= s@.len(),
    ensures
        r@ == s@.skip(n as int),
{
    let t = s.as_str();
    let len = t.unicode_len();
    let rest = t.substring_char(n, len);
    assert(rest@ =~= s@.skip(n as int));
    String::from_str(rest)
}

/// The script block of a single-file component's text.
pub fn extract_script(data: &str) -> (r: Result<String, InvalidScriptError>)
    ensures
        match r {
            Ok(body) => script_block(data@, body@),
            Err(_) => forall|body: Seq<char>| !script_block(data@, body),
        },
{
    let open = "<script>";
    let close = "</script>";
    let open_len = open.unicode_len();
    let close_len = close.unicode_len();
    let (rest, before) = match take_until(data, open) {
        None => {
            assert forall|body: Seq<char>| !script_block(data@, body) by {
                if script_block(data@, body) {
                    let (i, j) = choose|i: int, j: int|
                        {
                            &&& #[trigger] is_first_occurrence(data@, open_tag(), i)
                            &&& #[trigger] is_first_occurrence(
                                data@.skip(i + open_tag().len()),
                                close_tag(),
                                j,
                            )
                            &&& !occurs(data@.skip(i + open_tag().len()), open_tag())
                            &&& !occurs(
                                data@.skip(i + open_tag().len() + j + close_tag().len()),
                                close_tag(),
                            )
                            &&& body == data@.skip(i + open_tag().len()).take(j)
                        };
                    assert(occurs_at(data@, open_tag(), i));
                }
            }
            return Err(InvalidScriptError);
        },
        Some(x) => x,
    };
    let ghost i = before@.len() as int;
    assert(rest@.len() >= open_len) by {
        assert(occurs_at(data@, open@, i));
    }
    let after = skip_chars(&rest, open_len);
    assert(after@ =~= data@.skip(i + open_tag().len()));
    if take_until(after.as_str(), open).is_some() {
        assert forall|body: Seq<char>| !script_block(data@, body) by {
            if script_block(data@, body) {
                let (i2, j) = choose|i2: int, j: int|
                    {
                        &&& #[trigger] is_first_occurrence(data@, open_tag(), i2)
                        &&& #[trigger] is_first_occurrence(
                            data@.skip(i2 + open_tag().len()),
                            close_tag(),
                            j,
                        )
                        &&& !occurs(data@.skip(i2 + open_tag().len()), open_tag())
                        &&& !occurs(
                            data@.skip(i2 + open_tag().len() + j + close_tag().len()),
                            close_tag(),
                        )
                        &&& body == data@.skip(i2 + open_tag().len()).take(j)
                    };
                lemma_first_occurrence_unique(data@, open_tag(), i, i2);
            }
        }
        return Err(InvalidScriptError);
    }
    let (rest2, body) = match take_until(after.as_str(), close) {
        None => {
            assert forall|b: Seq<char>| !script_block(data@, b) by {
                if script_block(data@, b) {
                    let (i2, j) = choose|i2: int, j: int|
                        {
                            &&& #[trigger] is_first_occurrence(data@, open_tag(), i2)
                            &&& #[trigger] is_first_occurrence(
                                data@.skip(i2 + open_tag().len()),
                                close_tag(),
                                j,
                            )
                            &&& !occurs(data@.skip(i2 + open_tag().len()), open_tag())
                            &&& !occurs(
                                data@.skip(i2 + open_tag().len() + j + close_tag().len()),
                                close_tag(),
                            )
                            &&& b == data@.skip(i2 + open_tag().len()).take(j)
                        };
                    lemma_first_occurrence_unique(data@, open_tag(), i, i2);
                    assert(occurs_at(after@, close_tag(), j));
                }
            }
            return Err(InvalidScriptError);
        },
        Some(x) => x,
    };
    let ghost j = body@.len() as int;
    assert(rest2@.len() >= close_len) by {
        assert(occurs_at(after@, close@, j));
    }
    let tail = skip_chars(&rest2, close_len);
    assert(tail@ =~= data@.skip(i + open_tag().len() + j + close_tag().len()));
    if take_until(tail.as_str(), close).is_some() {
        assert forall|b: Seq<char>| !script_block(data@, b) by {
            if script_block(data@, b) {
                let (i2, j2) = choose|i2: int, j2: int|
                    {
                        &&& #[trigger] is_first_occurrence(data@, open_tag(), i2)
                        &&& #[trigger] is_first_occurrence(
                            data@.skip(i2 + open_tag().len()),
                            close_tag(),
                            j2,
                        )
                        &&& !occurs(data@.skip(i2 + open_tag().len()), open_tag())
                        &&& !occurs(
                            data@.skip(i2 + open_tag().len() + j2 + close_tag().len()),
                            close_tag(),
                        )
                        &&& b == data@.skip(i2 + open_tag().len()).take(j2)
                    };
                lemma_first_occurrence_unique(data@, open_tag(), i, i2);
                lemma_first_occurrence_unique(after@, close_tag(), j, j2);
            }
        }
        return Err(InvalidScriptError);
    }
    assert(is_first_occurrence(data@, open_tag(), i));
    assert(is_first_occurrence(data@.skip(i + open_tag().len()), close_tag(), j));
    Ok(body)
}

} // verus!
