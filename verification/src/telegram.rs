//! Alert text for Telegram: MarkdownV2 escaping and the failure message.

use vstd::prelude::*;
use vstd::string::*;

use crate::health_checker::HealthCheckResult;
use crate::text::{
    decimal, digit_char, lemma_decimal_reads_back, push_char, push_decimal, push_str,
    reads_as_number,
};

verus! {

/// The MarkdownV2 characters that are escaped with a backslash (a backslash
/// in the text is left as it is):
/// `_*[]()~`>#+-=|{}.!`
pub open spec fn is_markdown_special(c: char) -> bool {
    ||| c == '_' ||| c == '*' ||| c == '[' ||| c == ']' ||| c == '(' ||| c == ')'
    ||| c == '~' ||| c == '`' ||| c == '>' ||| c == '#' ||| c == '+' ||| c == '-'
    ||| c == '=' ||| c == '|' ||| c == '{' ||| c == '}' ||| c == '.' ||| c == '!'
}

/// The escaped form of one character.
pub open spec fn escape_char(c: char) -> Seq<char> {
    if is_markdown_special(c) {
        seq!['\\', c]
    } else {
        seq![c]
    }
}

/// The escaped form of a text: each character replaced by its escaped form.
pub open spec fn escape_markdown(s: Seq<char>) -> Seq<char>
    decreases s.len(),
{
    if s.len() == 0 {
        Seq::empty()
    } else {
        escape_char(s[0]) + escape_markdown(s.skip(1))
    }
}

/// Reading an escaped text back: a backslash followed by a special character
/// stands for that character; every other character stands for itself.
pub open spec fn unescape_markdown(s: Seq<char>) -> Seq<char>
    decreases s.len(),
{
    if s.len() == 0 {
        Seq::empty()
    } else if s.len() >= 2 && s[0] == '\\' && is_markdown_special(s[1]) {
        seq![s[1]] + unescape_markdown(s.skip(2))
    } else {
        seq![s[0]] + unescape_markdown(s.skip(1))
    }
}

/// Escaping distributes over concatenation.
pub proof fn lemma_escape_concat(a: Seq<char>, b: Seq<char>)
    ensures
        escape_markdown(a + b) == escape_markdown(a) + escape_markdown(b),
    decreases a.len(),
{
    if a.len() == 0 {
        assert(a + b =~= b);
        assert(escape_markdown(a) =~= Seq::<char>::empty());
        assert(escape_markdown(a) + escape_markdown(b) =~= escape_markdown(b));
    } else {
        assert((a + b).skip(1) =~= a.skip(1) + b);
        assert((a + b)[0] == a[0]);
        lemma_escape_concat(a.skip(1), b);
        assert(escape_markdown(a + b) =~= escape_char(a[0]) + (escape_markdown(a.skip(1))
            + escape_markdown(b)));
    }
}

/// Escaping one more character appends its escaped form.
pub proof fn lemma_escape_push(a: Seq<char>, c: char)
    ensures
        escape_markdown(a.push(c)) == escape_markdown(a) + escape_char(c),
{
    let one = seq![c];
    assert(a.push(c) =~= a + one);
    lemma_escape_concat(a, one);
    assert(one.skip(1) =~= Seq::<char>::empty());
    assert(escape_markdown(one) =~= escape_char(c) + escape_markdown(one.skip(1)));
    assert(escape_markdown(one) =~= escape_char(c));
}

/// An escaped text never starts with a special character.
proof fn lemma_escape_head(s: Seq<char>)
    requires
        escape_markdown(s).len() > 0,
    ensures
        !is_markdown_special(escape_markdown(s)[0]),
{
    assert(s.len() > 0);
}

/// Reading back an escaped text gives back the text: escaping loses
/// nothing, so two different texts never escape to the same output.
pub proof fn lemma_unescape_escape(s: Seq<char>)
    ensures
        unescape_markdown(escape_markdown(s)) == s,
    decreases s.len(),
{
    if s.len() > 0 {
        let c = s[0];
        let rest = escape_markdown(s.skip(1));
        let e = escape_markdown(s);
        lemma_unescape_escape(s.skip(1));
        if is_markdown_special(c) {
            assert(e =~= seq!['\\', c] + rest);
            assert(e.skip(2) =~= rest);
            assert(unescape_markdown(e) =~= seq![c] + s.skip(1));
        } else {
            assert(e =~= seq![c] + rest);
            assert(e.skip(1) =~= rest);
            if rest.len() > 0 {
                lemma_escape_head(s.skip(1));
                assert(e[1] == rest[0]);
            }
            assert(unescape_markdown(e) =~= seq![c] + s.skip(1));
        }
        assert(s =~= seq![c] + s.skip(1));
    }
}

/// In an escaped text every special character is preceded by a backslash.
pub proof fn lemma_escaped_specials_are_marked(s: Seq<char>, i: int)
    requires
        0 <= i < escape_markdown(s).len(),
        is_markdown_special(escape_markdown(s)[i]),
    ensures
        i > 0,
        escape_markdown(s)[i - 1] == '\\',
    decreases s.len(),
{
    let c = s[0];
    let rest = escape_markdown(s.skip(1));
    let e = escape_markdown(s);
    let head = escape_char(c);
    assert(e == head + rest);
    if i < head.len() {
        // within the escaped first character
        assert(is_markdown_special(c));
    } else {
        let j = i - head.len();
        assert(e[i] == rest[j]);
        lemma_escaped_specials_are_marked(s.skip(1), j);
        assert(e[i - 1] == rest[j - 1]);
    }
}

/// Escapes the MarkdownV2 special characters `_*[]()~`>#+-=|{}.!` of `text`
/// with a backslash; every other character is copied unchanged.
pub fn escape_markdown_v2(text: &str) -> (r: String)
    ensures
        r@ == escape_markdown(text@),
{
    let mut out = String::new();
    for c in it: text.chars()
        invariant
            it.seq() == text@,
            out@ == escape_markdown(text@.take(it.index() as int)),
    {
        let ghost i = it.index();
        let special = match c {
            '_' | '*' | '[' | ']' | '(' | ')' | '~' | '`' | '>' | '#' | '+' | '-' | '='
            | '|' | '{' | '}' | '.' | '!' => true,
            _ => false,
        };
        if special {
            push_char(&mut out, '\\');
        }
        push_char(&mut out, c);
        proof {
            assert(text@.take(i + 1) =~= text@.take(i as int).push(c));
            lemma_escape_push(text@.take(i as int), c);
        }
    }
    assert(text@.take(text@.len() as int) =~= text@);
    out
}

/// A text without special characters escapes to itself.
pub proof fn lemma_escape_plain(s: Seq<char>)
    requires
        forall|i: int| 0 <= i < s.len() ==> !is_markdown_special(#[trigger] s[i]),
    ensures
        escape_markdown(s) == s,
    decreases s.len(),
{
    if s.len() > 0 {
        assert(!is_markdown_special(s[0]));
        assert forall|i: int| 0 <= i < s.skip(1).len() implies !is_markdown_special(
            #[trigger] s.skip(1)[i],
        ) by {
            assert(s.skip(1)[i] == s[i + 1]);
        }
        lemma_escape_plain(s.skip(1));
        assert(s =~= seq![s[0]] + s.skip(1));
    }
}

/// Decimal renderings consist of the digits `0`-`9`.
pub proof fn lemma_decimal_digits(n: nat)
    ensures
        forall|i: int|
            0 <= i < decimal(n).len() ==> '0' <= #[trigger] decimal(n)[i] && decimal(n)[i] <= '9',
    decreases n,
{
    if n >= 10 {
        lemma_decimal_digits(n / 10);
        let d = digit_char(n % 10);
        assert('0' <= d && d <= '9');
        assert forall|i: int| 0 <= i < decimal(n).len() implies '0' <= #[trigger] decimal(n)[i]
            && decimal(n)[i] <= '9' by {
            if i < decimal(n / 10).len() {
                assert(decimal(n)[i] == decimal(n / 10)[i]);
            }
        }
    } else {
        let d = digit_char(n);
        assert('0' <= d && d <= '9');
    }
}

/// Why a check failed, as the alert words it: the HTTP status when a
/// response arrived, the recorded error otherwise.
pub open spec fn alert_reason(r: HealthCheckResult) -> Seq<char> {
    if r.status != 0 {
        "HTTP status "@ + decimal(r.status as nat)
    } else {
        r.error@
    }
}

/// The alert for a failed check, in MarkdownV2: the target in bold, then
/// its URL, latency and reason, with every text field escaped.
pub open spec fn error_message(r: HealthCheckResult) -> Seq<char> {
    "\u{1F534} *Health Check Failed: "@ + escape_markdown(r.target@) + "*\n\n*URL:* "@
        + escape_markdown(r.url@) + "\n*Latency:* "@ + decimal(r.latency_ms as nat)
        + "ms\n*Reason:* "@ + escape_markdown(alert_reason(r))
}

/// The reason of an alert, unescaped.
pub fn alert_reason_text(result: &HealthCheckResult) -> (r: String)
    ensures
        r@ == alert_reason(*result),
{
    if result.status != 0 {
        let mut s = String::from_str("HTTP status ");
        push_decimal(&mut s, result.status as u64);
        s
    } else {
        result.error.clone()
    }
}

/// Builds the alert text for a failed check.
pub fn build_error_message(result: &HealthCheckResult) -> (r: String)
    ensures
        r@ == error_message(*result),
{
    let reason = alert_reason_text(result);
    let target = escape_markdown_v2(result.target.as_str());
    let url = escape_markdown_v2(result.url.as_str());
    let reason = escape_markdown_v2(reason.as_str());
    let mut s = String::from_str("\u{1F534} *Health Check Failed: ");
    push_str(&mut s, target.as_str());
    push_str(&mut s, "*\n\n*URL:* ");
    push_str(&mut s, url.as_str());
    push_str(&mut s, "\n*Latency:* ");
    push_decimal(&mut s, result.latency_ms as u64);
    push_str(&mut s, "ms\n*Reason:* ");
    push_str(&mut s, reason.as_str());
    s
}

/// When a response arrived, the alert ends with `HTTP status <code>`,
/// unchanged by escaping; otherwise it ends with the escaped error.
pub proof fn lemma_alert_ends_with_reason(r: HealthCheckResult)
    ensures
        r.status != 0 ==> error_message(r).skip(
            error_message(r).len() - alert_reason(r).len(),
        ) == alert_reason(r),
        r.status == 0 ==> error_message(r).skip(
            error_message(r).len() - escape_markdown(r.error@).len(),
        ) == escape_markdown(r.error@),
{
    let m = error_message(r);
    let e = escape_markdown(alert_reason(r));
    let prefix = "\u{1F534} *Health Check Failed: "@ + escape_markdown(r.target@)
        + "*\n\n*URL:* "@ + escape_markdown(r.url@) + "\n*Latency:* "@ + decimal(
        r.latency_ms as nat,
    ) + "ms\n*Reason:* "@;
    assert(m =~= prefix + e);
    assert(m.skip(m.len() - e.len()) =~= e);
    if r.status != 0 {
        let label = "HTTP status "@;
        let digits = decimal(r.status as nat);
        reveal_strlit("HTTP status ");
        lemma_decimal_digits(r.status as nat);
        assert forall|i: int| 0 <= i < alert_reason(r).len() implies !is_markdown_special(
            #[trigger] alert_reason(r)[i],
        ) by {
            if i < label.len() {
                assert(alert_reason(r)[i] == label[i]);
            } else {
                assert(alert_reason(r)[i] == digits[i - label.len()]);
            }
        }
        lemma_escape_plain(alert_reason(r));
    }
}

/// Exactly the eighteen MarkdownV2 characters `_*[]()~`>#+-=|{}.!` are
/// escaped, each by one backslash in front; every other character, the
/// backslash included, is copied as it is.
pub proof fn lemma_escape_reserved_set(c: char)
    ensures
        escape_markdown(seq![c]) == (if c == '_' || c == '*' || c == '[' || c == ']' || c == '('
            || c == ')' || c == '~' || c == '`' || c == '>' || c == '#' || c == '+' || c == '-'
            || c == '=' || c == '|' || c == '{' || c == '}' || c == '.' || c == '!' {
            seq!['\\', c]
        } else {
            seq![c]
        }),
{
    let one = seq![c];
    assert(one.skip(1) =~= Seq::<char>::empty());
    assert(escape_markdown(one) =~= escape_char(c) + escape_markdown(one.skip(1)));
    assert(escape_markdown(one) =~= escape_char(c));
}

/// `t` is a safe MarkdownV2 rendering of the text `s`: every reserved
/// character in `t` is marked by a backslash in front of it, and reading `t`
/// back gives `s`.
pub open spec fn renders_escaped(t: Seq<char>, s: Seq<char>) -> bool {
    &&& unescape_markdown(t) == s
    &&& forall|i: int|
        0 <= i < t.len() && is_markdown_special(#[trigger] t[i]) ==> i > 0 && t[i - 1] == '\\'
}

/// Escaping renders every text safely.
pub proof fn lemma_escape_renders(s: Seq<char>)
    ensures
        renders_escaped(escape_markdown(s), s),
{
    lemma_unescape_escape(s);
    assert forall|i: int|
        0 <= i < escape_markdown(s).len() && is_markdown_special(
            #[trigger] escape_markdown(s)[i],
        ) implies i > 0 && escape_markdown(s)[i - 1] == '\\' by {
        lemma_escaped_specials_are_marked(s, i);
    }
}

/// The alert text laid out around its four variable parts: the target, the
/// URL, the latency digits and the reason.
pub open spec fn alert_layout(
    m: Seq<char>,
    target: Seq<char>,
    url: Seq<char>,
    latency: Seq<char>,
    reason: Seq<char>,
) -> bool {
    m == "\u{1F534} *Health Check Failed: "@ + target + "*\n\n*URL:* "@ + url + "\n*Latency:* "@
        + latency + "ms\n*Reason:* "@ + reason
}

/// The alert for a failed check is the fixed template filled with a safe
/// MarkdownV2 rendering of the target name, of the URL and of the reason,
/// and with the latency in decimal digits that read back as `latency_ms`.
pub proof fn lemma_alert_fields(r: HealthCheckResult)
    ensures
        exists|t: Seq<char>, u: Seq<char>, d: Seq<char>, x: Seq<char>|
            #[trigger] alert_layout(error_message(r), t, u, d, x) && renders_escaped(t, r.target@)
                && renders_escaped(u, r.url@) && reads_as_number(d, r.latency_ms as int)
                && renders_escaped(x, alert_reason(r)),
{
    let t = escape_markdown(r.target@);
    let u = escape_markdown(r.url@);
    let d = decimal(r.latency_ms as nat);
    let x = escape_markdown(alert_reason(r));
    lemma_escape_renders(r.target@);
    lemma_escape_renders(r.url@);
    lemma_escape_renders(alert_reason(r));
    lemma_decimal_reads_back(r.latency_ms as nat);
    assert(alert_layout(error_message(r), t, u, d, x));
}

/// The reason of an alert is `HTTP status ` and digits that read back as
/// the status when a response arrived, and the recorded error otherwise.
pub proof fn lemma_alert_reason(r: HealthCheckResult)
    ensures
        r.status != 0 ==> exists|d: Seq<char>|
            #[trigger] reads_as_number(d, r.status as int) && alert_reason(r) == "HTTP status "@ + d,
        r.status == 0 ==> alert_reason(r) == r.error@,
{
    if r.status != 0 {
        lemma_decimal_reads_back(r.status as nat);
        assert(reads_as_number(decimal(r.status as nat), r.status as int));
    }
}

} // verus!
