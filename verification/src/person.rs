//! A named person with an age, and the greeting line it introduces
//! itself with. The age is rendered in decimal by a verified routine.

use vstd::prelude::*;
use vstd::string::StrSliceExecFns;
use vstd::string::StringExecFns;

verus! {

/// The character for a single decimal digit.
pub open spec fn digit_char(d: nat) -> char {
    if d == 0 {
        '0'
    } else if d == 1 {
        '1'
    } else if d == 2 {
        '2'
    } else if d == 3 {
        '3'
    } else if d == 4 {
        '4'
    } else if d == 5 {
        '5'
    } else if d == 6 {
        '6'
    } else if d == 7 {
        '7'
    } else if d == 8 {
        '8'
    } else {
        '9'
    }
}

/// The decimal digits of `n`, most significant first, with no leading
/// zero except for `n == 0` itself.
pub open spec fn dec_digits(n: nat) -> Seq<char>
    decreases n,
{
    if n < 10 {
        seq![digit_char(n)]
    } else {
        dec_digits(n / 10) + seq![digit_char(n % 10)]
    }
}

/// The greeting a person with this name and age produces.
pub open spec fn greeting(name: Seq<char>, age: u32) -> Seq<char> {
    "Hello, my name is "@ + name + " and I'm "@ + dec_digits(age as nat) + " years old!"@
}

/// A one-character string for a decimal digit.
fn digit_str(d: u32) -> (r: &'static str)
    requires
        d < 10,
    ensures
        r@ == seq![digit_char(d as nat)],
{
    proof {
        reveal_strlit("0");
        reveal_strlit("1");
        reveal_strlit("2");
        reveal_strlit("3");
        reveal_strlit("4");
        reveal_strlit("5");
        reveal_strlit("6");
        reveal_strlit("7");
        reveal_strlit("8");
        reveal_strlit("9");
        assert("0"@ =~= seq!['0']);
        assert("1"@ =~= seq!['1']);
        assert("2"@ =~= seq!['2']);
        assert("3"@ =~= seq!['3']);
        assert("4"@ =~= seq!['4']);
        assert("5"@ =~= seq!['5']);
        assert("6"@ =~= seq!['6']);
        assert("7"@ =~= seq!['7']);
        assert("8"@ =~= seq!['8']);
        assert("9"@ =~= seq!['9']);
    }
    match d {
        0 => "0",
        1 => "1",
        2 => "2",
        3 => "3",
        4 => "4",
        5 => "5",
        6 => "6",
        7 => "7",
        8 => "8",
        _ => "9",
    }
}

/// The decimal rendering of `n`, exactly `dec_digits(n)`.
pub fn u32_digits(n: u32) -> (r: String)
    ensures
        r@ == dec_digits(n as nat),
    decreases n,
{
    if n < 10 {
        String::from_str(digit_str(n))
    } else {
        let mut s = u32_digits(n / 10);
        s.append(digit_str(n % 10));
        s
    }
}

/// A named person with an age in years.
#[derive(Debug)]
pub struct Person {
    pub name: String,
    pub age: u32,
}

impl Person {
    /// A person with exactly this name and age.
    pub fn new(name: &str, age: u32) -> (p: Person)
        ensures
            p.name@ == name@,
            p.age == age,
    {
        Person { name: name.to_owned(), age }
    }

    /// The greeting line for this person: `greeting(self.name@, self.age)`.
    pub fn greet(&self) -> (r: String)
        ensures
            r@ == greeting(self.name@, self.age),
    {
        let mut s = String::from_str("Hello, my name is ");
        s.append(self.name.as_str());
        s.append(" and I'm ");
        let digits = u32_digits(self.age);
        s.append(digits.as_str());
        s.append(" years old!");
        s
    }
}

} // verus!
