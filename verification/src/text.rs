//! Text building blocks of the notification core: prefix tests, decimal
//! rendering of ids, chat mentions, and a line-oriented message builder
//! whose every operation appends an exactly stated piece of markup.

use vstd::prelude::*;
use vstd::string::*;

verus! {

/// Whether `p` is a prefix of `s`.
pub open spec fn starts_with_text(s: Seq<char>, p: Seq<char>) -> bool {
    p.len() <= s.len() && s.subrange(0, p.len() as int) == p
}

/// Decide whether the string starts with the prefix.
pub fn str_starts_with(s: &str, prefix: &str) -> (r: bool)
    ensures
        r == starts_with_text(s@, prefix@),
{
    let n = prefix.unicode_len();
    let sn = s.unicode_len();
    if n > sn {
        return false;
    }
    let mut i: usize = 0;
    while i < n
        invariant
            i <= n,
            n == prefix@.len(),
            n <= s@.len(),
            forall|j: int| 0 <= j < i ==> s@[j] == prefix@[j],
        decreases n - i,
    {
        if s.get_char(i) != prefix.get_char(i) {
            proof {
                if starts_with_text(s@, prefix@) {
                    assert(s@.subrange(0, n as int)[i as int] == prefix@[i as int]);
                }
            }
            return false;
        }
        i = i + 1;
    }
    proof {
        assert(s@.subrange(0, n as int) =~= prefix@);
    }
    true
}

/// The character of one decimal digit.
pub open spec fn digit_char(d: int) -> char
    recommends
        0 <= d < 10,
{
    if d == 0 {
        '0'
    } else if d == 1 {
        '1'
    } else if d == 2 {
        '2'
    } else if d == 3 {
        '3'
    } else if d == 4 {
        '4'
    } else if d == 5 {
        '5'
    } else if d == 6 {
        '6'
    } else if d == 7 {
        '7'
    } else if d == 8 {
        '8'
    } else {
        '9'
    }
}

/// The decimal digits of a number, most significant first, no leading
/// zeroes except for zero itself.
pub open spec fn dec_digits(n: int) -> Seq<char>
    recommends
        n >= 0,
    decreases n,
{
    if n < 10 {
        seq![digit_char(n)]
    } else {
        dec_digits(n / 10).push(digit_char(n % 10))
    }
}

/// Append one decimal digit to the buffer.
fn push_digit(s: &mut String, d: u64)
    requires
        d < 10,
    ensures
        final(s)@ == old(s)@ + seq![digit_char(d as int)],
{
    if d == 0 {
        proof {
            reveal_strlit("0");
        }
        s.append("0");
        proof {
            assert(final(s)@ =~= old(s)@ + seq![digit_char(d as int)]);
        }
    } else if d == 1 {
        proof {
            reveal_strlit("1");
        }
        s.append("1");
        proof {
            assert(final(s)@ =~= old(s)@ + seq![digit_char(d as int)]);
        }
    } else if d == 2 {
        proof {
            reveal_strlit("2");
        }
        s.append("2");
        proof {
            assert(final(s)@ =~= old(s)@ + seq![digit_char(d as int)]);
        }
    } else if d == 3 {
        proof {
            reveal_strlit("3");
        }
        s.append("3");
        proof {
            assert(final(s)@ =~= old(s)@ + seq![digit_char(d as int)]);
        }
    } else if d == 4 {
        proof {
            reveal_strlit("4");
        }
        s.append("4");
        proof {
            assert(final(s)@ =~= old(s)@ + seq![digit_char(d as int)]);
        }
    } else if d == 5 {
        proof {
            reveal_strlit("5");
        }
        s.append("5");
        proof {
            assert(final(s)@ =~= old(s)@ + seq![digit_char(d as int)]);
        }
    } else if d == 6 {
        proof {
            reveal_strlit("6");
        }
        s.append("6");
        proof {
            assert(final(s)@ =~= old(s)@ + seq![digit_char(d as int)]);
        }
    } else if d == 7 {
        proof {
            reveal_strlit("7");
        }
        s.append("7");
        proof {
            assert(final(s)@ =~= old(s)@ + seq![digit_char(d as int)]);
        }
    } else if d == 8 {
        proof {
            reveal_strlit("8");
        }
        s.append("8");
        proof {
            assert(final(s)@ =~= old(s)@ + seq![digit_char(d as int)]);
        }
    } else {
        proof {
            reveal_strlit("9");
        }
        s.append("9");
        proof {
            assert(final(s)@ =~= old(s)@ + seq![digit_char(d as int)]);
        }
    }
}

/// Render a number in decimal.
pub fn u64_to_dec(n: u64) -> (s: String)
    ensures
        s@ == dec_digits(n as int),
    decreases n,
{
    if n < 10 {
        let mut s = String::new();
        push_digit(&mut s, n);
        proof {
            assert(s@ =~= dec_digits(n as int));
        }
        s
    } else {
        let mut s = u64_to_dec(n / 10);
        push_digit(&mut s, n % 10);
        proof {
            assert(s@ =~= dec_digits(n as int));
        }
        s
    }
}

/// The chat markup that mentions a user by id.
pub open spec fn user_mention_text(id: int) -> Seq<char> {
    "<@"@ + dec_digits(id) + ">"@
}

/// The chat markup that references a channel by id.
pub open spec fn channel_mention_text(id: int) -> Seq<char> {
    "<#"@ + dec_digits(id) + ">"@
}

/// Render the mention of a user.
pub fn user_mention(id: u64) -> (s: String)
    ensures
        s@ == user_mention_text(id as int),
{
    let mut s = String::from_str("<@");
    let digits = u64_to_dec(id);
    s.append(digits.as_str());
    s.append(">");
    s
}

/// Render the reference to a channel.
pub fn channel_mention(id: u64) -> (s: String)
    ensures
        s@ == channel_mention_text(id as int),
{
    let mut s = String::from_str("<#");
    let digits = u64_to_dec(id);
    s.append(digits.as_str());
    s.append(">");
    s
}

/// A growing chat message, built line by line in the chat's markup.
pub struct MessageLines {
    buf: String,
}

impl MessageLines {
    /// The text built so far.
    pub closed spec fn text(&self) -> Seq<char> {
        self.buf@
    }

    pub fn new() -> (m: MessageLines)
        ensures
            m.text() == Seq::<char>::empty(),
    {
        MessageLines { buf: String::new() }
    }

    /// Append the text and end the line.
    pub fn push_line(&mut self, s: &str)
        ensures
            final(self).text() == old(self).text() + s@ + "\n"@,
    {
        self.buf.append(s);
        self.buf.append("\n");
    }

    /// Append the text in bold and end the line.
    pub fn push_bold_line(&mut self, s: &str)
        ensures
            final(self).text() == old(self).text() + "**"@ + s@ + "**"@ + "\n"@,
    {
        self.buf.append("**");
        self.buf.append(s);
        self.buf.append("**");
        self.buf.append("\n");
    }

    /// Append the text underlined and end the line.
    pub fn push_underline_line(&mut self, s: &str)
        ensures
            final(self).text() == old(self).text() + "__"@ + s@ + "__"@ + "\n"@,
    {
        self.buf.append("__");
        self.buf.append(s);
        self.buf.append("__");
        self.buf.append("\n");
    }

    /// Append a link shown under a name.
    pub fn push_named_link(&mut self, name: &str, url: &str)
        ensures
            final(self).text() == old(self).text() + "["@ + name@ + "]("@ + url@ + ")"@,
    {
        self.buf.append("[");
        self.buf.append(name);
        self.buf.append("](");
        self.buf.append(url);
        self.buf.append(")");
    }

    /// The finished message.
    pub fn build(self) -> (s: String)
        ensures
            s@ == self.text(),
    {
        self.buf
    }
}

} // verus!
