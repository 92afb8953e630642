//! Command handlers: pure strategies from a decoded request to a reply.
use vstd::prelude::*;
use vstd::string::{StrSliceExecFns, StringExecFns};
use crate::text::{i128_text, int_text, parse_i32, parsed_i32, text_equals};

verus! {

/// Request that makes a handler answer with its termination notice and the
/// server stop.
pub open spec fn exit_request() -> Seq<char> {
    "exit"@
}

/// Reply to the terminating request.
pub open spec fn stop_notice() -> Seq<char> {
    "stopping emulator"@
}

/// Reply of the echo handler.
pub open spec fn echo_reply(request: Seq<char>) -> Seq<char> {
    if request == "ping"@ {
        "pong"@
    } else if request == "pong"@ {
        "ping"@
    } else if request == exit_request() {
        stop_notice()
    } else {
        "unknown command"@
    }
}

/// The pieces of `s` between single spaces, as splitting on `' '` gives them:
/// always at least one, empty pieces included.
pub open spec fn tokens(s: Seq<char>) -> Seq<Seq<char>>
    decreases s.len(),
{
    if s.len() == 0 {
        seq![Seq::<char>::empty()]
    } else {
        let prev = tokens(s.drop_last());
        if s.last() == ' ' {
            prev.push(Seq::<char>::empty())
        } else {
            prev.update(prev.len() - 1, prev.last().push(s.last()))
        }
    }
}

/// Sum of the tokens read as `i32`, or the first token that is not one.
pub open spec fn sum_tokens(toks: Seq<Seq<char>>) -> Result<int, Seq<char>>
    decreases toks.len(),
{
    if toks.len() == 0 {
        Ok(0)
    } else {
        match sum_tokens(toks.drop_last()) {
            Err(t) => Err(t),
            Ok(a) => match parsed_i32(toks.last()) {
                Some(n) => Ok(a + n),
                None => Err(toks.last()),
            },
        }
    }
}

/// Reply of the arithmetic handler to a request other than the terminating
/// one: the decimal sum of its space-separated integers, or a message naming
/// the first token that is not an integer.
pub open spec fn sum_reply(s: Seq<char>) -> Seq<char> {
    match sum_tokens(tokens(s)) {
        Ok(n) => int_text(n),
        Err(t) => "Invalid number '"@ + t + "'"@,
    }
}

/// Reply of the arithmetic handler.
pub open spec fn adder_reply(request: Seq<char>) -> Seq<char> {
    if request == exit_request() {
        stop_notice()
    } else {
        sum_reply(request)
    }
}

proof fn lemma_tokens_nonempty(s: Seq<char>)
    ensures
        tokens(s).len() >= 1,
    decreases s.len(),
{
    if s.len() > 0 {
        lemma_tokens_nonempty(s.drop_last());
    }
}

/// Whether the request is the terminating one.
pub fn is_exit(request: &str) -> (r: bool)
    ensures
        r == (request@ == exit_request()),
{
    text_equals(request, "exit")
}

/// The echo handler: `ping` and `pong` answer each other, the terminating
/// request gets the termination notice, anything else is unknown.
pub fn echo_response(request: &str) -> (r: String)
    ensures
        r@ == echo_reply(request@),
{
    if text_equals(request, "ping") {
        String::from_str("pong")
    } else if text_equals(request, "pong") {
        String::from_str("ping")
    } else if text_equals(request, "exit") {
        String::from_str("stopping emulator")
    } else {
        String::from_str("unknown command")
    }
}

/// The arithmetic handler: the termination notice for the terminating
/// request, the sum of the request's integers otherwise.
pub fn adder_response(request: &str) -> (r: String)
    ensures
        r@ == adder_reply(request@),
{
    if is_exit(request) {
        String::from_str("stopping emulator")
    } else {
        sum(request)
    }
}

/// Sums the integers of a request separated by single spaces. A token that is
/// not an `i32` (an empty one included) makes the reply
/// `Invalid number '<token>'`, naming the first such token.
pub fn sum(str: &str) -> (r: String)
    ensures
        r@ == sum_reply(str@),
{
    let n = str.unicode_len();
    let mut start: usize = 0;
    let mut acc: i128 = 0;
    let mut bad: Option<(usize, usize)> = None;
    let mut i: usize = 0;
    proof {
        assert(str@.take(0) =~= Seq::<char>::empty());
        assert(str@.subrange(0, 0) =~= Seq::<char>::empty());
        assert(tokens(str@.take(0)).drop_last() =~= Seq::<Seq<char>>::empty());
    }
    while i < n
        invariant
            n == str@.len(),
            start <= i <= n,
            tokens(str@.take(i as int)).len() >= 1,
            tokens(str@.take(i as int)).last() == str@.subrange(start as int, i as int),
            -(i as int) * 2147483648 <= acc <= (i as int) * 2147483648,
            match bad {
                None => sum_tokens(tokens(str@.take(i as int)).drop_last()) == Ok::<int, Seq<char>>(
                    acc as int,
                ),
                Some((a, b)) => a <= b <= n && sum_tokens(tokens(str@.take(i as int)).drop_last())
                    == Err::<int, Seq<char>>(str@.subrange(a as int, b as int)),
            },
        decreases n - i,
    {
        let c = str.get_char(i);
        let ghost prev = tokens(str@.take(i as int));
        proof {
            assert(str@.take(i + 1).drop_last() =~= str@.take(i as int));
            assert(str@.take(i + 1).last() == c);
            lemma_tokens_nonempty(str@.take(i + 1));
        }
        if c == ' ' {
            assert(tokens(str@.take(i + 1)) == prev.push(Seq::<char>::empty()));
            assert(tokens(str@.take(i + 1)).drop_last() =~= prev);
            assert(prev =~= prev.drop_last().push(prev.last()));
            if bad.is_none() {
                let tok = str.substring_char(start, i);
                match parse_i32(tok) {
                    Some(v) => {
                        acc = acc + v as i128;
                    },
                    None => {
                        bad = Some((start, i));
                    },
                }
            }
            start = i + 1;
            assert(str@.subrange(start as int, i + 1) =~= Seq::<char>::empty());
        } else {
            let ghost next = prev.update(prev.len() - 1, prev.last().push(c));
            assert(tokens(str@.take(i + 1)) == next);
            assert(next.drop_last() =~= prev.drop_last());
            assert(str@.subrange(start as int, i + 1) =~= str@.subrange(start as int, i as int).push(c));
        }
        i = i + 1;
    }
    proof {
        assert(str@.take(n as int) =~= str@);
        let ts = tokens(str@);
        assert(ts =~= ts.drop_last().push(ts.last()));
    }
    match bad {
        Some((a, b)) => {
            let tok = str.substring_char(a, b);
            invalid_number(tok)
        },
        None => {
            let tok = str.substring_char(start, n);
            match parse_i32(tok) {
                Some(v) => {
                    let total: i128 = acc + v as i128;
                    i128_text(total)
                },
                None => invalid_number(tok),
            }
        },
    }
}

fn invalid_number(tok: &str) -> (r: String)
    ensures
        r@ == "Invalid number '"@ + tok@ + "'"@,
{
    let mut r = String::from_str("Invalid number '");
    r.append(tok);
    r.append("'");
    r
}

} // verus!
