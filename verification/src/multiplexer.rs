use vstd::prelude::*;

verus! {

/// The character of a decimal digit.
pub open spec fn digit_char(d: nat) -> char {
    if d == 0 {
        '0'
    } else if d == 1 {
        '1'
    } else if d == 2 {
        '2'
    } else if d == 3 {
        '3'
    } else if d == 4 {
        '4'
    } else if d == 5 {
        '5'
    } else if d == 6 {
        '6'
    } else if d == 7 {
        '7'
    } else if d == 8 {
        '8'
    } else {
        '9'
    }
}

/// The decimal numeral of `n`, without sign or leading zeros.
pub open spec fn decimal(n: nat) -> Seq<char>
    decreases n,
{
    if n < 10 {
        seq![digit_char(n)]
    } else {
        decimal(n / 10).push(digit_char(n % 10))
    }
}

/// The number of `true` entries in `s`.
pub open spec fn count_true(s: Seq<bool>) -> nat
    decreases s.len(),
{
    if s.len() == 0 {
        0
    } else {
        count_true(s.drop_last()) + if s.last() { 1nat } else { 0nat }
    }
}

/// Writes `n` in decimal: `usize::to_string`.
///
/// Trusted: std's `Display` for unsigned integers prints the decimal numeral
/// with no sign, padding or leading zeros, which is what `decimal` states.
#[verifier::external_body]
fn decimal_string(n: usize) -> (s: String)
    ensures
        s@ == decimal(n as nat),
{
    n.to_string()
}

/// A message to be copied to every recipient of a [`Multiplexer`].
pub struct MultiplexMsg<M>(pub M);

/// Copies each message it receives to all of its recipients.
pub struct Multiplexer<R> {
    recipients: Vec<R>,
}

/// The report of a fan-out in which `counted` deliveries were counted.
pub open spec fn fan_out_report(counted: nat) -> Result<(), Seq<char>> {
    if counted == 0 {
        Ok(())
    } else {
        Err(decimal(counted) + " send error(s)"@)
    }
}

/// `c` is a decimal digit.
pub open spec fn is_digit_char(c: char) -> bool {
    '0' <= c && c <= '9'
}

/// The value of a decimal digit.
pub open spec fn digit_value(c: char) -> nat {
    if c == '0' {
        0
    } else if c == '1' {
        1
    } else if c == '2' {
        2
    } else if c == '3' {
        3
    } else if c == '4' {
        4
    } else if c == '5' {
        5
    } else if c == '6' {
        6
    } else if c == '7' {
        7
    } else if c == '8' {
        8
    } else {
        9
    }
}

/// The number a string of decimal digits denotes.
pub open spec fn numeral_value(s: Seq<char>) -> nat
    decreases s.len(),
{
    if s.len() == 0 {
        0
    } else {
        numeral_value(s.drop_last()) * 10 + digit_value(s.last())
    }
}

/// `decimal(n)` is a numeral for `n`: a non-empty string of decimal digits
/// that denotes `n`, with no leading zero.
pub proof fn law_decimal_is_the_numeral(n: nat)
    ensures
        decimal(n).len() >= 1,
        forall|i: int| 0 <= i < decimal(n).len() ==> is_digit_char(#[trigger] decimal(n)[i]),
        numeral_value(decimal(n)) == n,
        decimal(n).len() > 1 ==> decimal(n)[0] != '0',
    decreases n,
{
    let d = decimal(n);
    if n < 10 {
        assert(d.drop_last() =~= Seq::<char>::empty());
        assert(digit_value(digit_char(n)) == n);
        assert(numeral_value(d) == numeral_value(d.drop_last()) * 10 + digit_value(d.last()));
        assert(numeral_value(Seq::<char>::empty()) == 0);
    } else {
        law_decimal_is_the_numeral(n / 10);
        assert(d.drop_last() =~= decimal(n / 10));
        assert(d[0] == decimal(n / 10)[0]);
        assert(n == (n / 10) * 10 + n % 10);
        assert(digit_value(digit_char(n % 10)) == n % 10);
        assert(d.last() == digit_char(n % 10));
        assert(numeral_value(d) == numeral_value(decimal(n / 10)) * 10 + digit_value(d.last()));
        if decimal(n / 10).len() == 1 {
            assert(n / 10 >= 1);
            assert(n / 10 < 10) by {
                if n / 10 >= 10 {
                    assert(decimal(n / 10).len() > 1) by {
                        assert(decimal(n / 10) == decimal(n / 100).push(digit_char((n / 10) % 10)));
                        law_decimal_is_the_numeral(n / 100);
                    }
                }
            }
            assert(decimal(n / 10) == seq![digit_char(n / 10)]);
        }
        assert forall|i: int| 0 <= i < d.len() implies is_digit_char(#[trigger] d[i]) by {
            if i < d.len() - 1 {
                assert(d[i] == decimal(n / 10)[i]);
            }
        }
    }
}

/// `count_true` counts: it is 0 on no entries and goes up by one exactly for
/// each `true` entry added.
pub proof fn law_count_true_counts(s: Seq<bool>, b: bool)
    ensures
        count_true(Seq::<bool>::empty()) == 0,
        count_true(s.push(b)) == count_true(s) + if b { 1nat } else { 0nat },
        count_true(s) <= s.len(),
    decreases s.len(),
{
    assert(s.push(b).drop_last() =~= s);
    if s.len() > 0 {
        law_count_true_counts(s.drop_last(), s.last());
    }
}

proof fn lemma_count_true_zero(s: Seq<bool>)
    ensures
        count_true(s) == 0 <==> forall|i: int| 0 <= i < s.len() ==> !#[trigger] s[i],
    decreases s.len(),
{
    if s.len() > 0 {
        let init = s.drop_last();
        lemma_count_true_zero(init);
        if count_true(s) == 0 {
            assert forall|i: int| 0 <= i < s.len() implies !#[trigger] s[i] by {
                if i < s.len() - 1 {
                    assert(s[i] == init[i]);
                }
            }
        }
        if forall|i: int| 0 <= i < s.len() ==> !#[trigger] s[i] {
            assert(!s[s.len() - 1]);
            assert forall|i: int| 0 <= i < init.len() implies !#[trigger] init[i] by {
                assert(init[i] == s[i]);
            }
        }
    }
}

/// A fan-out is reported `Ok` exactly when no hand-over succeeded; otherwise
/// the report is the error text made of the numeral of the number `n >= 1` of
/// successful hand-overs followed by ` send error(s)`.
pub proof fn law_fan_out_report(delivered: Seq<bool>)
    ensures
        fan_out_report(count_true(delivered)) is Ok <==> forall|i: int|
            0 <= i < delivered.len() ==> !#[trigger] delivered[i],
        fan_out_report(count_true(delivered)) matches Err(text) ==> {
            &&& 1 <= count_true(delivered) <= delivered.len()
            &&& text == decimal(count_true(delivered)) + " send error(s)"@
            &&& numeral_value(text.subrange(0, text.len() - 14)) == count_true(delivered)
        },
{
    lemma_count_true_zero(delivered);
    if delivered.len() > 0 {
        law_count_true_counts(delivered.drop_last(), delivered.last());
        assert(delivered.drop_last().push(delivered.last()) =~= delivered);
    }
    let n = count_true(delivered);
    if n != 0 {
        law_decimal_is_the_numeral(n);
        reveal_strlit(" send error(s)");
        let text = decimal(n) + " send error(s)"@;
        assert(text.subrange(0, text.len() - 14) =~= decimal(n));
    }
}

impl<R> Multiplexer<R> {
    pub closed spec fn spec_recipients(&self) -> Seq<R> {
        self.recipients@
    }

    pub fn new(recipients: Vec<R>) -> (m: Self)
        ensures
            m.spec_recipients() == recipients@,
    {
        Self { recipients }
    }

    /// Those who receive a copy of every message.
    pub fn recipients(&self) -> (r: &Vec<R>)
        ensures
            r@ == self.spec_recipients(),
    {
        &self.recipients
    }

    /// Reports on one fan-out, given for each recipient whether handing it
    /// its copy succeeded: the number of successful hand-overs is what is
    /// counted, and the fan-out is reported as `Ok` when that count is zero
    /// and otherwise as an error naming the count as the number of send
    /// errors.
    pub fn handle(&self, delivered: &Vec<bool>) -> (report: Result<(), String>)
        ensures
            match report {
                Ok(()) => fan_out_report(count_true(delivered@)) == Ok::<(), Seq<char>>(()),
                Err(text) => fan_out_report(count_true(delivered@)) == Err::<(), Seq<char>>(text@),
            },
            report is Ok <==> forall|i: int| 0 <= i < delivered.len() ==> !#[trigger] delivered@[i],
            report matches Err(text) ==> count_true(delivered@) >= 1 && text@ == decimal(
                count_true(delivered@),
            ) + " send error(s)"@,
    {
        let mut errors: usize = 0;
        let mut i: usize = 0;
        while i < delivered.len()
            invariant
                i <= delivered.len(),
                errors == count_true(delivered@.subrange(0, i as int)),
                errors <= i,
            decreases delivered.len() - i,
        {
            assert(delivered@.subrange(0, i + 1).drop_last() =~= delivered@.subrange(0, i as int));
            if delivered[i] {
                errors = errors + 1;
            }
            i = i + 1;
        }
        assert(delivered@.subrange(0, delivered.len() as int) =~= delivered@);
        proof {
            law_fan_out_report(delivered@);
        }
        if errors == 0 {
            Ok(())
        } else {
            let text = decimal_string(errors).concat(" send error(s)");
            Err(text)
        }
    }
}

} // verus!
