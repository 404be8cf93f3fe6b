use vstd::prelude::*;

verus! {

/// The settings of a counter button: the step of one press, the current
/// value, and where and how the value is mirrored into a file.
#[derive(Clone, Debug)]
pub struct CounterSettings {
    pub step: isize,
    pub value: isize,
    pub file: Option<String>,
    pub pattern: Option<String>,
}

impl Default for CounterSettings {
    /// A step of one, a value of zero, and no file.
    fn default() -> (r: Self)
        ensures
            r.step == 1,
            r.value == 0,
            r.file is None,
            r.pattern is None,
    {
        CounterSettings { step: 1, value: 0, file: None, pattern: None }
    }
}

/// The decimal digit for `d`.
pub open spec fn digit_char(d: nat) -> char {
    if d == 0 { '0' } else if d == 1 { '1' } else if d == 2 { '2' } else if d == 3 { '3' }
    else if d == 4 { '4' } else if d == 5 { '5' } else if d == 6 { '6' } else if d == 7 { '7' }
    else if d == 8 { '8' } else { '9' }
}

/// The decimal digits of `n`, most significant first, without leading zeros.
pub open spec fn digits_of(n: nat) -> Seq<char>
    decreases n,
{
    if n < 10 {
        seq![digit_char(n)]
    } else {
        digits_of(n / 10) + seq![digit_char(n % 10)]
    }
}

/// The decimal text of `v`, with a leading minus sign when negative.
pub open spec fn decimal_of(v: int) -> Seq<char> {
    if v < 0 {
        seq!['-'] + digits_of((-v) as nat)
    } else {
        digits_of(v as nat)
    }
}

/// `s` with every occurrence of `from` replaced by `to`, scanning left to
/// right and taking matches that do not overlap. An empty `from` matches
/// before each character and at the end.
pub open spec fn replaced_of(s: Seq<char>, from: Seq<char>, to: Seq<char>) -> Seq<char>
    decreases s.len(),
{
    if from.len() == 0 {
        if s.len() == 0 {
            to
        } else {
            to + seq![s[0]] + replaced_of(s.drop_first(), from, to)
        }
    } else if s.len() < from.len() {
        s
    } else if s.subrange(0, from.len() as int) == from {
        to + replaced_of(s.subrange(from.len() as int, s.len() as int), from, to)
    } else {
        seq![s[0]] + replaced_of(s.drop_first(), from, to)
    }
}

/// Relies on `ToString` for `isize`: the value in decimal, minus sign first.
#[verifier::external_body]
fn decimal(v: isize) -> (r: String)
    ensures
        r@ == decimal_of(v as int),
{
    v.to_string()
}

/// Relies on `str::replace`: every non-overlapping match of `from`, found
/// left to right, is replaced by `to`.
#[verifier::external_body]
fn replace_all(s: &str, from: &str, to: &str) -> (r: String)
    ensures
        r@ == replaced_of(s@, from@, to@),
{
    s.replace(from, to)
}

/// Whether `v` fits in an `isize`.
pub open spec fn fits_isize(v: int) -> bool {
    isize::MIN <= v <= isize::MAX
}

impl CounterSettings {
    /// The settings with the value moved by `step`, everything else kept.
    /// None when the new value does not fit.
    pub fn incremented(&self, step: isize) -> (r: Option<CounterSettings>)
        ensures
            fits_isize(self.value + step) <==> r is Some,
            r matches Some(n) ==> n.value == self.value + step && n.step == self.step
                && n.file == self.file && n.pattern == self.pattern,
    {
        match self.value.checked_add(step) {
            Some(value) => Some(
                CounterSettings {
                    step: self.step,
                    value,
                    file: self.file.clone(),
                    pattern: self.pattern.clone(),
                },
            ),
            None => None,
        }
    }

    /// The text written to the settings' file, if one is set: the pattern
    /// with each `{}` replaced by the value, or the bare value when
    /// there is no pattern.
    pub fn file_text(&self) -> (r: Option<String>)
        ensures
            self.file is None ==> r is None,
            self.file is Some && self.pattern is None ==> (r matches Some(t) && t@ == decimal_of(
                self.value as int,
            )),
            self.file is Some && self.pattern is Some ==> (r matches Some(t) && t@ == replaced_of(
                self.pattern->0@,
                "{}"@,
                decimal_of(self.value as int),
            )),
    {
        if self.file.is_none() {
            return None;
        }
        let value = decimal(self.value);
        match &self.pattern {
            Some(pattern) => Some(replace_all(pattern.as_str(), "{}", value.as_str())),
            None => Some(value),
        }
    }

    /// The step that a dial turned by `ticks` applies: the step once per
    /// tick, negative ticks turning the other way. None when it does not fit.
    pub fn dial_step(&self, ticks: i16) -> (r: Option<isize>)
        ensures
            fits_isize(self.step * ticks) <==> r is Some,
            r matches Some(s) ==> s == self.step * ticks,
    {
        self.step.checked_mul(ticks as isize)
    }
}

} // verus!
