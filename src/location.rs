use vstd::prelude::*;
use vstd::string::*;

verus! {

/// The character of a decimal digit `d < 10`.
pub open spec fn digit_char(d: nat) -> char {
    if d == 0 { '0' } else if d == 1 { '1' } else if d == 2 { '2' } else if d == 3 { '3' }
    else if d == 4 { '4' } else if d == 5 { '5' } else if d == 6 { '6' } else if d == 7 { '7' }
    else if d == 8 { '8' } else { '9' }
}

/// The decimal digits of `n`, most significant first, without leading zeros.
pub open spec fn decimal(n: nat) -> Seq<char>
    decreases n,
{
    if n < 10 {
        seq![digit_char(n)]
    } else {
        decimal(n / 10) + seq![digit_char(n % 10)]
    }
}

/// Relies on `usize`'s `ToString` (its `Display`): the plain decimal form of the number.
#[verifier::external_body]
pub(crate) fn decimal_string(n: usize) -> (r: String)
    ensures
        r@ == decimal(n as nat),
{
    n.to_string()
}

/// The characters of an optional owned string.
pub open spec fn opt_text(o: Option<String>) -> Option<Seq<char>> {
    match o {
        Some(m) => Some(m@),
        None => None,
    }
}

/// The characters of an optional borrowed string.
pub open spec fn opt_str_text(o: Option<&str>) -> Option<Seq<char>> {
    match o {
        Some(m) => Some(m@),
        None => None,
    }
}

/// One point that an error passed through: a source file, a line, and an optional note.
pub struct Location {
    pub file: String,
    pub line: u32,
    pub message: Option<String>,
}

/// How a location reads in a trace: `at <file>:<line>`, then ` -- <message>` if there is one.
pub open spec fn location_text(file: Seq<char>, line: nat, message: Option<Seq<char>>) -> Seq<char> {
    let head = "at "@ + file + ":"@ + decimal(line);
    match message {
        Some(m) => head + " -- "@ + m,
        None => head,
    }
}

impl Location {
    pub open spec fn text(&self) -> Seq<char> {
        location_text(self.file@, self.line as nat, opt_text(self.message))
    }

    /// Makes a location from a call site and an optional note.
    pub fn new(file: &str, line: u32, message: Option<&str>) -> (r: Location)
        ensures
            r.file@ == file@,
            r.line == line,
            opt_text(r.message) == opt_str_text(message),
    {
        let message = match message {
            Some(m) => Some(String::from_str(m)),
            None => None,
        };
        Location { file: String::from_str(file), line, message }
    }

    pub fn file(&self) -> (r: &str)
        ensures
            r@ == self.file@,
    {
        self.file.as_str()
    }

    pub fn line(&self) -> (r: u32)
        ensures
            r == self.line,
    {
        self.line
    }

    pub fn message(&self) -> (r: Option<&str>)
        ensures
            opt_str_text(r) == opt_text(self.message),
    {
        match &self.message {
            Some(m) => Some(m.as_str()),
            None => None,
        }
    }

    /// The location as it reads in a trace.
    pub fn render(&self) -> (r: String)
        ensures
            r@ == self.text(),
    {
        proof {
            reveal_strlit("at ");
            reveal_strlit(":");
            reveal_strlit(" -- ");
        }
        let mut out = String::from_str("at ");
        out.append(self.file.as_str());
        out.append(":");
        let digits = decimal_string(self.line as usize);
        out.append(digits.as_str());
        match &self.message {
            Some(m) => {
                out.append(" -- ");
                out.append(m.as_str());
            },
            None => {},
        }
        out
    }
}

impl Clone for Location {
    fn clone(&self) -> (r: Self)
        ensures
            r == *self,
    {
        Location { file: self.file.clone(), line: self.line, message: self.message.clone() }
    }
}

} // verus!
