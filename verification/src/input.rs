use vstd::prelude::*;

use crate::text::{decimal, digit_char, push_char, string_views};
use vstd::string::StringExecFns;

verus! {

broadcast use vstd::string::axiom_spec_iter;

/// A buffer for one line typed on the console.
pub struct ConsoleInput {
    pub buffer: String,
}

/// A command typed by the user. `Text` is `String` for parsed commands and
/// `Seq<char>` in specifications.
pub enum InputUser<Text = String> {
    Publish { topic: Text, qos: u8, message: Text },
    Subscribe { topic: Text, qos: u8 },
    Unsubscribe { topic: Text },
    Disconnect,
    Ping,
}

impl<T: View> View for InputUser<T> {
    type V = InputUser<T::V>;

    open spec fn view(&self) -> InputUser<T::V> {
        match self {
            InputUser::Publish { topic, qos, message } => InputUser::Publish {
                topic: topic@,
                qos: *qos,
                message: message@,
            },
            InputUser::Subscribe { topic, qos } => InputUser::Subscribe { topic: topic@, qos: *qos },
            InputUser::Unsubscribe { topic } => InputUser::Unsubscribe { topic: topic@ },
            InputUser::Disconnect => InputUser::Disconnect,
            InputUser::Ping => InputUser::Ping,
        }
    }
}

impl InputUser {
    pub fn pub_message(topic: String, qos: u8, message: String) -> (r: Self)
        ensures
            r == (InputUser::Publish { topic, qos, message }),
    {
        Self::Publish { topic, qos, message }
    }

    pub fn sub(topic: String, qos: u8) -> (r: Self)
        ensures
            r == (InputUser::Subscribe { topic, qos }),
    {
        Self::Subscribe { topic, qos }
    }

    pub fn unsub(topic: String) -> (r: Self)
        ensures
            r == (InputUser::Unsubscribe { topic }),
    {
        Self::Unsubscribe { topic }
    }
}

/// Whether `c` has the Unicode White_Space property, which is what
/// `char::is_whitespace` and `str::split_whitespace` go by.
pub open spec fn spec_is_whitespace(c: char) -> bool {
    let u = c as u32;
    ||| 0x09 <= u <= 0x0D
    ||| u == 0x20
    ||| u == 0x85
    ||| u == 0xA0
    ||| u == 0x1680
    ||| 0x2000 <= u <= 0x200A
    ||| u == 0x2028
    ||| u == 0x2029
    ||| u == 0x202F
    ||| u == 0x205F
    ||| u == 0x3000
}

/// Whether every word is non-empty and holds no white space.
pub open spec fn clean_words(ws: Seq<Seq<char>>) -> bool {
    forall|i: int|
        #![trigger ws[i]]
        0 <= i < ws.len() ==> ws[i].len() > 0 && forall|j: int|
            0 <= j < ws[i].len() ==> !spec_is_whitespace(#[trigger] ws[i][j])
}

/// Whether `w` is non-empty and holds no white space.
pub open spec fn clean_word(w: Seq<char>) -> bool {
    w.len() > 0 && forall|j: int| 0 <= j < w.len() ==> !spec_is_whitespace(#[trigger] w[j])
}

/// Appending a word to text that is empty or ends in white space adds that
/// word to the words of the text.
proof fn lemma_words_append_word(s: Seq<char>, w: Seq<char>)
    requires
        s.len() == 0 || spec_is_whitespace(s.last()),
        clean_word(w),
    ensures
        words(s + w) == words(s).push(w),
    decreases w.len(),
{
    let sw = s + w;
    assert(sw.drop_last() =~= s + w.drop_last());
    assert(sw.last() == w.last());
    if w.len() == 1 {
        assert(s + w.drop_last() =~= s);
        assert(w =~= seq![w.last()]);
        if sw.len() > 1 {
            assert(sw[sw.len() - 2] == s.last());
        }
    } else {
        let w0 = w.drop_last();
        assert(clean_word(w0)) by {
            assert forall|j: int| 0 <= j < w0.len() implies !spec_is_whitespace(#[trigger] w0[j]) by {
                assert(w0[j] == w[j]);
            }
        }
        lemma_words_append_word(s, w0);
        assert(sw[sw.len() - 2] == w[w.len() - 2]);
        assert(!spec_is_whitespace(w[w.len() - 2]));
        assert(!spec_is_whitespace(w.last()));
        assert(w0.push(w.last()) =~= w);
        let before = words(sw.drop_last());
        assert(before == words(s).push(w0));
        assert(words(sw) == before.update(before.len() - 1, before.last().push(sw.last())));
        assert(before.last() == w0);
        assert(before.update(before.len() - 1, w) =~= words(s).push(w));
    }
}

/// Joining words by single spaces and splitting the result again gives back
/// the words, whenever each word is non-empty and holds no white space.
pub proof fn lemma_words_join(ws: Seq<Seq<char>>)
    requires
        clean_words(ws),
    ensures
        words(join_words(ws)) == ws,
    decreases ws.len(),
{
    if ws.len() == 0 {
    } else if ws.len() == 1 {
        assert(clean_word(ws[0]));
        lemma_words_append_word(Seq::<char>::empty(), ws[0]);
        assert(Seq::<char>::empty() + ws[0] =~= ws[0]);
        assert(ws =~= seq![ws[0]]);
    } else {
        let front = ws.drop_last();
        assert(clean_words(front)) by {
            assert forall|i: int| #![trigger front[i]] 0 <= i < front.len() implies front[i].len() > 0 && forall|j: int|
                0 <= j < front[i].len() ==> !spec_is_whitespace(#[trigger] front[i][j]) by {
                assert(front[i] == ws[i]);
            }
        }
        lemma_words_join(front);
        let s = join_words(front) + seq![' '];
        assert(s.drop_last() =~= join_words(front));
        assert(spec_is_whitespace(' '));
        assert(words(s) == words(join_words(front)));
        assert(clean_word(ws.last())) by {
            assert(ws.last() == ws[ws.len() - 1]);
        }
        lemma_words_append_word(s, ws.last());
        assert(ws =~= front.push(ws.last()));
    }
}

/// Whether `c` is a white-space character.
pub fn is_whitespace(c: char) -> (r: bool)
    ensures
        r == spec_is_whitespace(c),
{
    let u = c as u32;
    (0x09 <= u && u <= 0x0D) || u == 0x20 || u == 0x85 || u == 0xA0 || u == 0x1680 || (0x2000
        <= u && u <= 0x200A) || u == 0x2028 || u == 0x2029 || u == 0x202F || u == 0x205F || u
        == 0x3000
}

/// The words of `s`, in order: its maximal runs of characters that are not
/// white space. Each character either is white space and starts no word,
/// or starts a new word after white space (or at the start), or extends the
/// word it follows.
pub open spec fn words(s: Seq<char>) -> Seq<Seq<char>>
    decreases s.len(),
{
    if s.len() == 0 {
        seq![]
    } else {
        let before = words(s.drop_last());
        let c = s.last();
        if spec_is_whitespace(c) {
            before
        } else if s.len() == 1 || spec_is_whitespace(s[s.len() - 2]) {
            before.push(seq![c])
        } else {
            before.update(before.len() - 1, before.last().push(c))
        }
    }
}

/// Every word is non-empty and holds no white space.
pub proof fn lemma_words_are_clean(s: Seq<char>)
    ensures
        forall|i: int| 0 <= i < words(s).len() ==> #[trigger] words(s)[i].len() > 0,
        forall|i: int, j: int|
            0 <= i < words(s).len() && 0 <= j < words(s)[i].len() ==> !spec_is_whitespace(
                #[trigger] words(s)[i][j],
            ),
    decreases s.len(),
{
    if s.len() > 0 {
        lemma_words_are_clean(s.drop_last());
        let before = words(s.drop_last());
        let c = s.last();
        if !spec_is_whitespace(c) && !(s.len() == 1 || spec_is_whitespace(s[s.len() - 2])) {
            lemma_words_nonempty_when_word_char(s.drop_last());
            assert forall|i: int, j: int|
                0 <= i < words(s).len() && 0 <= j < words(s)[i].len() implies !spec_is_whitespace(
                #[trigger] words(s)[i][j],
            ) by {
                if i == before.len() - 1 {
                    if j < before.last().len() {
                        assert(words(s)[i][j] == before[i][j]);
                    }
                } else {
                    assert(words(s)[i] == before[i]);
                }
            }
        } else if !spec_is_whitespace(c) {
            assert forall|i: int, j: int|
                0 <= i < words(s).len() && 0 <= j < words(s)[i].len() implies !spec_is_whitespace(
                #[trigger] words(s)[i][j],
            ) by {
                if i < before.len() {
                    assert(words(s)[i] == before[i]);
                }
            }
        }
    }
}

/// A sequence whose last character is not white space has words.
proof fn lemma_words_nonempty_when_word_char(s: Seq<char>)
    requires
        s.len() > 0,
        !spec_is_whitespace(s.last()),
    ensures
        words(s).len() > 0,
    decreases s.len(),
{
    if s.len() > 1 && !spec_is_whitespace(s[s.len() - 2]) {
        assert(s.drop_last().last() == s[s.len() - 2]);
        lemma_words_nonempty_when_word_char(s.drop_last());
    }
}


/// Splits `s` into its words, as `str::split_whitespace` does.
pub fn split_whitespace(s: &str) -> (r: Vec<String>)
    ensures
        string_views(r@) == words(s@),
{
    let mut parts: Vec<String> = Vec::new();
    let mut cur = String::new();
    let mut in_word = false;
    let ghost chars = s@;
    let ghost mut i: int = 0;
    for c in it: s.chars()
        invariant
            it.seq() == chars,
            chars == s@,
            i == it.index(),
            0 <= i <= chars.len(),
            in_word ==> i > 0 && !spec_is_whitespace(chars[i - 1]) && cur@.len() > 0
                && words(chars.take(i)) == string_views(parts@).push(cur@),
            !in_word ==> cur@.len() == 0 && (i == 0 || spec_is_whitespace(chars[i - 1])) && words(chars.take(i))
                == string_views(parts@),
    {
        let ghost prefix = chars.take(i + 1);
        assert(prefix.drop_last() =~= chars.take(i));
        assert(prefix.last() == c);
        if is_whitespace(c) {
            if in_word {
                let mut word = String::new();
                std::mem::swap(&mut word, &mut cur);
                parts.push(word);
                assert(string_views(parts@) =~= words(chars.take(i)));
                in_word = false;
            }
        } else {
            if in_word {
                assert(prefix[prefix.len() - 2] == chars[i - 1]);
                push_char(&mut cur, c);
            } else {
                push_char(&mut cur, c);
                assert(cur@ =~= seq![c]);
                in_word = true;
            }
        }
        proof {
            i = i + 1;
        }
    }
    if in_word {
        parts.push(cur);
    }
    assert(chars.take(i) =~= chars);
    assert(string_views(parts@) =~= words(s@));
    parts
}

/// Whether `c` is one of the ASCII digits `0` to `9`.
pub open spec fn is_ascii_digit(c: char) -> bool {
    48 <= c as u32 <= 57
}

/// The value of a run of decimal digits.
pub open spec fn digits_value(s: Seq<char>) -> nat
    decreases s.len(),
{
    if s.len() == 0 {
        0
    } else {
        digits_value(s.drop_last()) * 10 + (s.last() as u32 - 48) as nat
    }
}

/// The digits of a number: what follows an optional leading `+`.
pub open spec fn unsigned_digits(s: Seq<char>) -> Seq<char> {
    if s.len() > 0 && s[0] == '+' {
        s.drop_first()
    } else {
        s
    }
}

/// Whether every character of `d` is an ASCII digit.
pub open spec fn all_ascii_digits(d: Seq<char>) -> bool {
    forall|i: int| 0 <= i < d.len() ==> is_ascii_digit(#[trigger] d[i])
}

/// What `u8::from_str` accepts: an optional `+`, then one or more ASCII
/// decimal digits whose value is at most 255.
pub open spec fn spec_parse_u8(s: Seq<char>) -> Option<u8> {
    let digits = unsigned_digits(s);
    if digits.len() > 0 && all_ascii_digits(digits) && digits_value(digits) <= 255 {
        Some(digits_value(digits) as u8)
    } else {
        None
    }
}

/// The decimal numeral of a number is read back as that number.
pub proof fn lemma_digits_value_decimal(n: nat)
    ensures
        all_ascii_digits(decimal(n)),
        decimal(n).len() > 0,
        digits_value(decimal(n)) == n,
        decimal(n)[0] != '+',
    decreases n,
{
    let d = digit_char(n % 10);
    assert(d as u32 == (n % 10) + 48) by {
        assert(((n % 10) + 48) as char as u32 == (n % 10) + 48);
    }
    if n < 10 {
        assert(decimal(n) == seq![digit_char(n)]);
        assert(decimal(n).drop_last() =~= Seq::<char>::empty());
        assert(digits_value(Seq::<char>::empty()) == 0);
        assert(digits_value(decimal(n)) == digits_value(decimal(n).drop_last()) * 10 + (decimal(n).last() as u32 - 48) as nat);
        assert(n % 10 == n);
    } else {
        lemma_digits_value_decimal(n / 10);
        let prev = decimal(n / 10);
        assert(decimal(n) == prev.push(d));
        assert(decimal(n).drop_last() =~= prev);
        assert forall|i: int| 0 <= i < decimal(n).len() implies is_ascii_digit(
            #[trigger] decimal(n)[i],
        ) by {
            if i < prev.len() {
                assert(decimal(n)[i] == prev[i]);
            }
        }
        assert(decimal(n)[0] == prev[0]);
        assert(digits_value(decimal(n)) == digits_value(prev) * 10 + (d as u32 - 48) as nat);
        assert(n == (n / 10) * 10 + n % 10);
    }
}

/// A byte written in decimal is parsed back to that byte.
pub proof fn lemma_parse_u8_decimal(q: u8)
    ensures
        spec_parse_u8(decimal(q as nat)) == Some(q),
{
    lemma_digits_value_decimal(q as nat);
    assert(unsigned_digits(decimal(q as nat)) == decimal(q as nat));
}

/// The characters of `s`, in order.
fn chars_of(s: &str) -> (r: Vec<char>)
    ensures
        r@ == s@,
{
    let mut r: Vec<char> = Vec::new();
    for c in it: s.chars()
        invariant
            it.seq() == s@,
            r@ == it.seq().take(it.index() as int),
    {
        r.push(c);
        assert(r@ =~= it.seq().take(it.index() + 1));
    }
    assert(r@ =~= s@);
    r
}

/// The value of a run of digits is at least that of each of its prefixes.
proof fn lemma_digits_value_prefix(d: Seq<char>, k: int)
    requires
        0 <= k <= d.len(),
    ensures
        digits_value(d.take(k)) <= digits_value(d),
    decreases d.len(),
{
    if k < d.len() {
        assert(d.drop_last().take(k) =~= d.take(k));
        lemma_digits_value_prefix(d.drop_last(), k);
    } else {
        assert(d.take(k) =~= d);
    }
}

/// Parses a decimal byte as `str::parse::<u8>` does: an optional `+`, then
/// one or more ASCII digits, worth at most 255.
pub fn parse_u8(s: &str) -> (r: Option<u8>)
    ensures
        r == spec_parse_u8(s@),
{
    let cs = chars_of(s);
    let start: usize = if cs.len() > 0 && cs[0] == '+' {
        1
    } else {
        0
    };
    let ghost digits = unsigned_digits(s@);
    assert(digits =~= cs@.subrange(start as int, cs.len() as int));
    if start >= cs.len() {
        return None;
    }
    let mut value: u16 = 0;
    let mut i = start;
    while i < cs.len()
        invariant
            start <= i <= cs.len(),
            digits == unsigned_digits(s@),
            digits == cs@.subrange(start as int, cs.len() as int),
            forall|j: int| 0 <= j < i - start ==> is_ascii_digit(#[trigger] digits[j]),
            value == digits_value(digits.take(i - start)),
            value <= 255,
        decreases cs.len() - i,
    {
        let c = cs[i];
        let u = c as u32;
        if u < 48 || u > 57 {
            assert(!is_ascii_digit(digits[i - start]));
            assert(!all_ascii_digits(digits));
            return None;
        }
        assert(digits.take(i + 1 - start).drop_last() =~= digits.take(i - start));
        assert(digits.take(i + 1 - start).last() == c);
        assert(digits_value(digits.take(i + 1 - start)) == value * 10 + (u - 48));
        value = value * 10 + (u - 48) as u16;
        i = i + 1;
        if value > 255 {
            proof {
                lemma_digits_value_prefix(digits, i - start);
                assert(all_ascii_digits(digits) ==> digits_value(digits) > 255);
            }
            return None;
        }
    }
    assert(digits.take(i - start) =~= digits);
    Some(value as u8)
}

/// The lowercase form of a string, as `str::to_lowercase` computes it
/// (by the Unicode Lowercase mapping).
pub uninterp spec fn lowercase(s: Seq<char>) -> Seq<char>;

/// Lowercases a string.
///
/// Calls `str::to_lowercase`; the contract only names its result, which
/// depends on the characters of `s` alone.
#[verifier::external_body]
fn to_lowercase(s: &str) -> (r: String)
    ensures
        r@ == lowercase(s@),
{
    s.to_lowercase()
}

/// The words joined by single spaces.
pub open spec fn join_words(ws: Seq<Seq<char>>) -> Seq<char>
    decreases ws.len(),
{
    if ws.len() == 0 {
        seq![]
    } else if ws.len() == 1 {
        ws[0]
    } else {
        join_words(ws.drop_last()) + seq![' '] + ws.last()
    }
}

/// Joins `parts[from..]` with single spaces.
fn join_from(parts: &Vec<String>, from: usize) -> (r: String)
    requires
        from <= parts.len(),
    ensures
        r@ == join_words(string_views(parts@).subrange(from as int, parts.len() as int)),
{
    let mut joined = String::new();
    let mut i = from;
    while i < parts.len()
        invariant
            from <= i <= parts.len(),
            joined@ == join_words(string_views(parts@).subrange(from as int, i as int)),
        decreases parts.len() - i,
    {
        let ghost views = string_views(parts@);
        assert(views.subrange(from as int, i + 1).drop_last() =~= views.subrange(from as int, i as int));
        if i > from {
            push_char(&mut joined, ' ');
        }
        joined.append(parts[i].as_str());
        i = i + 1;
        assert(views.subrange(from as int, i as int).last() == parts@[i - 1]@);
        assert(joined@ =~= join_words(views.subrange(from as int, i as int)));
    }
    joined
}

/// The words on which no command can be read: a `sub` command whose QoS
/// word is present but is no number.
pub open spec fn command_fails(command: Seq<char>, parts: Seq<Seq<char>>) -> bool {
    command == "sub"@ && parts.len() >= 3 && spec_parse_u8(parts[2]) is None
}

/// The command that the words `parts` stand for, whose first word lowercases
/// to `command`; `Err` holds the message of a refusal.
pub open spec fn spec_from_command(command: Seq<char>, parts: Seq<Seq<char>>) -> Result<
    InputUser<Seq<char>>,
    Seq<char>,
> {
    if command == "pub"@ {
        if parts.len() < 4 {
            Err("Need at least 4 inputs: pub topic_name qos message"@)
        } else {
            match spec_parse_u8(parts[2]) {
                None => Err("Not a valid number"@),
                Some(qos) => if qos <= 2 {
                    Ok(
                        InputUser::Publish {
                            topic: parts[1],
                            qos,
                            message: join_words(parts.subrange(3, parts.len() as int)),
                        },
                    )
                } else {
                    Err("Invalid QoS: must be 0, 1, or 2"@)
                },
            }
        }
    } else if command == "sub"@ {
        if parts.len() < 2 {
            Err("Need at least 3 input: sub topic qos"@)
        } else if parts.len() == 2 {
            Ok(InputUser::Subscribe { topic: parts[1], qos: 0 })
        } else {
            Ok(InputUser::Subscribe { topic: parts[1], qos: spec_parse_u8(parts[2]).unwrap() })
        }
    } else if command == "unsub"@ {
        if parts.len() < 2 {
            Err("Need at least 2 input: sub topic"@)
        } else {
            Ok(InputUser::Unsubscribe { topic: parts[1] })
        }
    } else if command == "disconnect"@ {
        Ok(InputUser::Disconnect)
    } else {
        Err("Command invalid"@)
    }
}

/// The view of a parse result.
pub open spec fn result_view(r: Result<InputUser, String>) -> Result<InputUser<Seq<char>>, Seq<char>> {
    match r {
        Ok(u) => Ok(u@),
        Err(e) => Err(e@),
    }
}

/// The lines on which no command can be read: the first word lowercases to
/// `sub` and the third word is present but is no number.
pub open spec fn from_str_fails(s: Seq<char>) -> bool {
    words(s).len() > 0 && command_fails(lowercase(words(s)[0]), words(s))
}

/// What a typed line stands for: `Err("Empty input")` for a line without
/// words, else the command of its words.
pub open spec fn spec_from_str(s: Seq<char>) -> Result<InputUser<Seq<char>>, Seq<char>> {
    let parts = words(s);
    if parts.len() == 0 {
        Err("Empty input"@)
    } else {
        spec_from_command(lowercase(parts[0]), parts)
    }
}

/// A `pub` command with a topic, a QoS of 0 to 2 and message words is the
/// publish of that topic at that QoS, whose message splits back into the
/// message words; with a QoS written as a number above 2 it is refused.
pub proof fn lemma_publish_command(parts: Seq<Seq<char>>, q: u8)
    requires
        clean_words(parts),
        parts.len() >= 4,
        parts[2] == decimal(q as nat),
    ensures
        q <= 2 ==> (spec_from_command("pub"@, parts) matches Ok(
            InputUser::Publish { topic, qos, message },
        ) && topic == parts[1] && qos == q && words(message) == parts.subrange(
            3,
            parts.len() as int,
        )),
        q > 2 ==> spec_from_command("pub"@, parts) is Err,
{
    lemma_parse_u8_decimal(q);
    let rest = parts.subrange(3, parts.len() as int);
    assert(clean_words(rest)) by {
        assert forall|i: int| #![trigger rest[i]] 0 <= i < rest.len() implies rest[i].len() > 0 && forall|j: int|
            0 <= j < rest[i].len() ==> !spec_is_whitespace(#[trigger] rest[i][j]) by {
            assert(rest[i] == parts[i + 3]);
        }
    }
    lemma_words_join(rest);
}

/// A `sub` command with only a topic subscribes to it at QoS 0; with a QoS
/// written as a number it subscribes at that QoS.
pub proof fn lemma_subscribe_command(parts: Seq<Seq<char>>, q: u8)
    requires
        parts.len() >= 2,
    ensures
        parts.len() == 2 ==> spec_from_command("sub"@, parts) == Ok::<
            InputUser<Seq<char>>,
            Seq<char>,
        >(InputUser::Subscribe { topic: parts[1], qos: 0 }),
        parts.len() >= 3 && parts[2] == decimal(q as nat) ==> spec_from_command("sub"@, parts)
            == Ok::<InputUser<Seq<char>>, Seq<char>>(
            InputUser::Subscribe { topic: parts[1], qos: q },
        ),
{
    reveal_strlit("pub");
    reveal_strlit("sub");
    assert("pub"@ != "sub"@) by {
        assert("pub"@[0] != "sub"@[0]);
    }
    lemma_parse_u8_decimal(q);
}

impl InputUser {
    /// Reads a command from its words, the first of which lowercases to
    /// `command`: `pub topic qos message...`, `sub topic [qos]` (QoS 0 when
    /// left out), `unsub topic`
    /// or `disconnect`.
    pub fn from_command(command: &str, parts: &Vec<String>) -> (r: Result<InputUser, String>)
        requires
            !command_fails(command@, string_views(parts@)),
        ensures
            result_view(r) == spec_from_command(command@, string_views(parts@)),
    {
        let pub_word = "pub".to_string();
        let sub_word = "sub".to_string();
        let unsub_word = "unsub".to_string();
        let disconnect_word = "disconnect".to_string();
        let command = command.to_string();
        if command == pub_word {
            if parts.len() < 4 {
                return Err("Need at least 4 inputs: pub topic_name qos message".to_string());
            }
            let topic = parts[1].clone();
            let qos = match parse_u8(parts[2].as_str()) {
                None => {
                    return Err("Not a valid number".to_string());
                },
                Some(value) => {
                    if value <= 2 {
                        value
                    } else {
                        return Err("Invalid QoS: must be 0, 1, or 2".to_string());
                    }
                },
            };
            let message = join_from(parts, 3);
            Ok(InputUser::pub_message(topic, qos, message))
        } else if command == sub_word {
            if parts.len() < 2 {
                Err("Need at least 3 input: sub topic qos".to_string())
            } else if parts.len() == 2 {
                let topic = parts[1].clone();
                Ok(InputUser::sub(topic, 0))
            } else {
                let topic = parts[1].clone();
                let qos = parse_u8(parts[2].as_str()).unwrap();
                Ok(InputUser::sub(topic, qos))
            }
        } else if command == unsub_word {
            if parts.len() < 2 {
                Err("Need at least 2 input: sub topic".to_string())
            } else {
                let topic = parts[1].clone();
                Ok(InputUser::unsub(topic))
            }
        } else if command == disconnect_word {
            Ok(InputUser::Disconnect)
        } else {
            Err("Command invalid".to_string())
        }
    }

    /// Reads a typed line, e.g. `pub /hello 0 Hello world`, `sub /hello` (QoS 0)
    /// or `sub /hello 1`.
    pub fn from_str(s: &str) -> (r: Result<InputUser, String>)
        requires
            !from_str_fails(s@),
        ensures
            result_view(r) == spec_from_str(s@),
    {
        let parts = split_whitespace(s);
        if parts.len() == 0 {
            Err("Empty input".to_string())
        } else {
            let command = to_lowercase(parts[0].as_str());
            Self::from_command(command.as_str(), &parts)
        }
    }

    /// Reads a typed line as `from_str` does, or gives `None` on the lines
    /// where `from_str` stops (a `sub` whose QoS is no number).
    pub fn parse_line(s: &str) -> (r: Option<Result<InputUser, String>>)
        ensures
            r is None <==> from_str_fails(s@),
            r matches Some(res) ==> result_view(res) == spec_from_str(s@),
    {
        let parts = split_whitespace(s);
        if parts.len() == 0 {
            return Some(Err("Empty input".to_string()));
        }
        let command = to_lowercase(parts[0].as_str());
        let sub_word = "sub".to_string();
        if command == sub_word && parts.len() >= 3 && parse_u8(parts[2].as_str()).is_none() {
            return None;
        }
        Some(Self::from_str(s))
    }
}

} // verus!
