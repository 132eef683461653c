use vstd::prelude::*;

use crate::model::{Expectation, HttpMethod};

verus! {

pub open spec fn method_text(m: HttpMethod) -> Seq<char> {
    match m {
        HttpMethod::CONNECT => "CONNECT"@,
        HttpMethod::DELETE => "DELETE"@,
        HttpMethod::GET => "GET"@,
        HttpMethod::HEAD => "HEAD"@,
        HttpMethod::OPTIONS => "OPTIONS"@,
        HttpMethod::PATCH => "PATCH"@,
        HttpMethod::POST => "POST"@,
        HttpMethod::PUT => "PUT"@,
        HttpMethod::TRACE => "TRACE"@,
    }
}

pub open spec fn digit_char(d: nat) -> char {
    if d == 0 {
        '0'
    } else if d == 1 {
        '1'
    } else if d == 2 {
        '2'
    } else if d == 3 {
        '3'
    } else if d == 4 {
        '4'
    } else if d == 5 {
        '5'
    } else if d == 6 {
        '6'
    } else if d == 7 {
        '7'
    } else if d == 8 {
        '8'
    } else {
        '9'
    }
}

/// `n` written in decimal.
pub open spec fn decimal(n: nat) -> Seq<char>
    decreases n,
{
    if n < 10 {
        seq![digit_char(n)]
    } else {
        decimal(n / 10) + seq![digit_char(n % 10)]
    }
}

/// The text of an optional field, `_` when absent.
pub open spec fn or_blank(t: Option<Seq<char>>) -> Seq<char> {
    match t {
        Some(s) => s,
        None => "_"@,
    }
}

pub open spec fn opt_text(s: Option<String>) -> Option<Seq<char>> {
    match s {
        Some(t) => Some(t@),
        None => None,
    }
}

/// The text of an expectation: its method and path, its status, reason and
/// body, `_` standing for what is absent.
pub open spec fn expectation_text(e: Expectation) -> Seq<char> {
    "Expectation { \n\tRequest "@ + or_blank(
        match e.request.method {
            Some(m) => Some(method_text(m)),
            None => None,
        },
    ) + " "@ + or_blank(opt_text(e.request.path)) + " \n\tResponse "@ + or_blank(
        match e.response.status_code {
            Some(c) => Some(decimal(c as nat)),
            None => None,
        },
    ) + " "@ + or_blank(opt_text(e.response.status_reason)) + " \n\t\t"@ + or_blank(
        opt_text(e.response.body),
    ) + " \n}"@
}

/// The texts of `exps`, each after a line break.
pub open spec fn expectations_text(exps: Seq<Expectation>) -> Seq<char>
    decreases exps.len(),
{
    if exps.len() == 0 {
        Seq::empty()
    } else {
        expectations_text(exps.drop_last()) + "\n"@ + expectation_text(exps.last())
    }
}

impl HttpMethod {
    /// The method's name, as HTTP writes it.
    pub fn name(&self) -> (r: &'static str)
        ensures
            r@ == method_text(*self),
    {
        match self {
            HttpMethod::CONNECT => "CONNECT",
            HttpMethod::DELETE => "DELETE",
            HttpMethod::GET => "GET",
            HttpMethod::HEAD => "HEAD",
            HttpMethod::OPTIONS => "OPTIONS",
            HttpMethod::PATCH => "PATCH",
            HttpMethod::POST => "POST",
            HttpMethod::PUT => "PUT",
            HttpMethod::TRACE => "TRACE",
        }
    }
}

fn digit_text(d: u16) -> (r: &'static str)
    requires
        d < 10,
    ensures
        r@ == seq![digit_char(d as nat)],
{
    proof {
        reveal_strlit("0");
        reveal_strlit("1");
        reveal_strlit("2");
        reveal_strlit("3");
        reveal_strlit("4");
        reveal_strlit("5");
        reveal_strlit("6");
        reveal_strlit("7");
        reveal_strlit("8");
        reveal_strlit("9");
    }
    if d == 0 {
        "0"
    } else if d == 1 {
        "1"
    } else if d == 2 {
        "2"
    } else if d == 3 {
        "3"
    } else if d == 4 {
        "4"
    } else if d == 5 {
        "5"
    } else if d == 6 {
        "6"
    } else if d == 7 {
        "7"
    } else if d == 8 {
        "8"
    } else {
        "9"
    }
}

/// `n` written in decimal.
pub fn decimal_text(n: u16) -> (r: String)
    ensures
        r@ == decimal(n as nat),
    decreases n,
{
    if n < 10 {
        String::from_str(digit_text(n))
    } else {
        let mut r = decimal_text(n / 10);
        r.append(digit_text(n % 10));
        r
    }
}

fn append_or_blank(r: &mut String, t: &Option<String>)
    ensures
        final(r)@ == old(r)@ + or_blank(opt_text(*t)),
{
    match t {
        Some(s) => r.append(s.as_str()),
        None => r.append("_"),
    }
}

impl Expectation {
    /// The expectation as text, for reading in logs.
    pub fn describe(&self) -> (r: String)
        ensures
            r@ == expectation_text(*self),
    {
        let mut r = String::from_str("Expectation { \n\tRequest ");
        match self.request.method {
            Some(m) => r.append(m.name()),
            None => r.append("_"),
        }
        r.append(" ");
        append_or_blank(&mut r, &self.request.path);
        r.append(" \n\tResponse ");
        match self.response.status_code {
            Some(c) => {
                let code = decimal_text(c);
                r.append(code.as_str());
            },
            None => r.append("_"),
        }
        r.append(" ");
        append_or_blank(&mut r, &self.response.status_reason);
        r.append(" \n\t\t");
        append_or_blank(&mut r, &self.response.body);
        r.append(" \n}");
        r
    }
}

/// All the expectations as text, each after a line break.
pub fn display_expectations(expectations: &Vec<Expectation>) -> (r: String)
    ensures
        r@ == expectations_text(expectations@),
{
    let mut r = String::new();
    let mut i: usize = 0;
    while i < expectations.len()
        invariant
            i <= expectations.len(),
            r@ == expectations_text(expectations@.subrange(0, i as int)),
        decreases expectations.len() - i,
    {
        r.append("\n");
        let text = expectations[i].describe();
        r.append(text.as_str());
        assert(expectations@.subrange(0, i + 1).drop_last() =~= expectations@.subrange(0, i as int));
        i += 1;
    }
    assert(expectations@.subrange(0, i as int) =~= expectations@);
    r
}

} // verus!
