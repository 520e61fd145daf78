//! The text lines that the server writes: decimal ids, audit lines and chat
//! lines.

use vstd::prelude::*;
use vstd::string::*;

verus! {

/// The decimal digit character of `d`.
pub open spec fn digit_char(d: nat) -> char
    recommends
        d < 10,
{
    "0123456789"@[d as int]
}

/// The decimal form of `n`, without leading zeros.
pub open spec fn decimal(n: nat) -> Seq<char>
    decreases n,
{
    if n < 10 {
        seq![digit_char(n)]
    } else {
        decimal(n / 10).push(digit_char(n % 10))
    }
}

/// The decimal form of `n`.
pub fn decimal_text(n: u64) -> (r: String)
    ensures
        r@ == decimal(n as nat),
    decreases n,
{
    let digits = "0123456789";
    proof {
        reveal_strlit("0123456789");
    }
    let d: usize = (n % 10) as usize;
    let last = digits.substring_char(d, d + 1);
    assert(last@ =~= seq![digit_char(d as nat)]);
    if n < 10 {
        String::from_str(last)
    } else {
        let mut s = decimal_text(n / 10);
        s.append(last);
        assert(s@ =~= decimal(n as nat));
        s
    }
}

/// `"[<time>] ID_<id> set name to <name>"`, or with `changed name from <old>
/// to <name>` where a name was set before.
pub open spec fn login_line(time: Seq<char>, id: u64, old: Option<Seq<char>>, name: Seq<char>) -> Seq<
    char,
> {
    match old {
        None => "["@ + time + "] ID_"@ + decimal(id as nat) + " set name to "@ + name,
        Some(o) => "["@ + time + "] ID_"@ + decimal(id as nat) + " changed name from "@ + o + " to "@
            + name,
    }
}

/// How a chat line names its sender: the display name, or `ID_<id>`.
pub open spec fn sender_label(id: u64, name: Option<Seq<char>>) -> Seq<char> {
    match name {
        None => "ID_"@ + decimal(id as nat),
        Some(n) => n,
    }
}

/// `"[<time>] <sender>: <message>"`.
pub open spec fn chat_line(time: Seq<char>, id: u64, name: Option<Seq<char>>, message: Seq<char>) -> Seq<
    char,
> {
    "["@ + time + "] "@ + sender_label(id, name) + ": "@ + message
}

/// The model of an optional string.
pub open spec fn opt_view(o: Option<String>) -> Option<Seq<char>> {
    match o {
        None => None,
        Some(s) => Some(s@),
    }
}

/// The audit line for a login.
pub fn login_text(time: &str, id: u64, old: &Option<String>, name: &str) -> (r: String)
    ensures
        r@ == login_line(time@, id, opt_view(*old), name@),
{
    let mut s = String::from_str("[");
    s.append(time);
    s.append("] ID_");
    let digits = decimal_text(id);
    s.append(digits.as_str());
    match old {
        None => {
            s.append(" set name to ");
            s.append(name);
        },
        Some(o) => {
            s.append(" changed name from ");
            s.append(o.as_str());
            s.append(" to ");
            s.append(name);
        },
    }
    s
}

/// The line that relays a chat message.
pub fn chat_text(time: &str, id: u64, name: &Option<String>, message: &str) -> (r: String)
    ensures
        r@ == chat_line(time@, id, opt_view(*name), message@),
{
    let mut s = String::from_str("[");
    s.append(time);
    s.append("] ");
    match name {
        None => {
            s.append("ID_");
            let digits = decimal_text(id);
            s.append(digits.as_str());
        },
        Some(n) => {
            s.append(n.as_str());
        },
    }
    s.append(": ");
    s.append(message);
    s
}

} // verus!
