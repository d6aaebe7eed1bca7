//! What can go wrong between asking for the weather and printing it.
use vstd::prelude::*;

verus! {

/// The four values read from the response.
#[derive(Clone, Copy, Debug, PartialEq, Eq, Structural)]
pub enum Field {
    WeatherCode,
    Temperature,
    Humidity,
    WindSpeed,
}

impl Field {
    pub open spec fn key_view(self) -> Seq<char> {
        match self {
            Field::WeatherCode => "weatherCode"@,
            Field::Temperature => "temperature"@,
            Field::Humidity => "humidity"@,
            Field::WindSpeed => "windSpeed"@,
        }
    }

    /// The member name under which the response carries this value.
    pub fn key(self) -> (r: &'static str)
        ensures
            r@ == self.key_view(),
    {
        match self {
            Field::WeatherCode => "weatherCode",
            Field::Temperature => "temperature",
            Field::Humidity => "humidity",
            Field::WindSpeed => "windSpeed",
        }
    }
}

/// A failure of one run, each ending it with a diagnostic.
#[derive(Debug)]
pub enum WeatherError {
    /// The request failed or its body could not be read; the transport's message.
    Network(String),
    /// The body is not JSON; the parser's message.
    Parse(String),
    /// The body is JSON but not an object.
    NotObject,
    /// The object has no `data.timelines[0].intervals[0].values` object.
    MissingValues,
    /// The values object lacks this member, or it is not a number of the kind
    /// asked for (a non-negative integer for the weather code).
    BadField(Field),
    /// The weather code is not in the table.
    UnknownCode(u64),
}

/// The character of a decimal digit.
pub open spec fn digit_char(d: nat) -> char {
    if d == 0 {
        '0'
    } else if d == 1 {
        '1'
    } else if d == 2 {
        '2'
    } else if d == 3 {
        '3'
    } else if d == 4 {
        '4'
    } else if d == 5 {
        '5'
    } else if d == 6 {
        '6'
    } else if d == 7 {
        '7'
    } else if d == 8 {
        '8'
    } else {
        '9'
    }
}

/// `n` written in decimal, without leading zeros.
pub open spec fn decimal(n: nat) -> Seq<char>
    decreases n,
{
    if n < 10 {
        seq![digit_char(n)]
    } else {
        decimal(n / 10) + seq![digit_char(n % 10)]
    }
}

fn digit_text(d: u64) -> (r: &'static str)
    requires
        d < 10,
    ensures
        r@ == seq![digit_char(d as nat)],
{
    proof {
        reveal_strlit("0");
        reveal_strlit("1");
        reveal_strlit("2");
        reveal_strlit("3");
        reveal_strlit("4");
        reveal_strlit("5");
        reveal_strlit("6");
        reveal_strlit("7");
        reveal_strlit("8");
        reveal_strlit("9");
    }
    match d {
        0 => "0",
        1 => "1",
        2 => "2",
        3 => "3",
        4 => "4",
        5 => "5",
        6 => "6",
        7 => "7",
        8 => "8",
        _ => "9",
    }
}

/// Writes `n` in decimal.
pub fn decimal_text(n: u64) -> (r: String)
    ensures
        r@ == decimal(n as nat),
    decreases n,
{
    if n < 10 {
        digit_text(n).to_owned()
    } else {
        let mut s = decimal_text(n / 10);
        s.append(digit_text(n % 10));
        s
    }
}

impl WeatherError {
    /// The diagnostic printed for this failure.
    pub open spec fn message_view(&self) -> Seq<char> {
        match self {
            WeatherError::Network(m) => "Problem getting the weather data from tomorrow.io: "@ + m@,
            WeatherError::Parse(m) => "Problem parsing the weather data: "@ + m@,
            WeatherError::NotObject =>
                "Problem parsing the weather data: Parsed data can not be converted into an object"@,
            WeatherError::MissingValues =>
                "Unexpected response shape: no data.timelines[0].intervals[0].values object"@,
            WeatherError::BadField(f) => "Unexpected response shape: member "@ + f.key_view()
                + " is missing or of the wrong type"@,
            WeatherError::UnknownCode(c) => "Unrecognized weather code: "@ + decimal(*c as nat),
        }
    }

    pub fn message(&self) -> (r: String)
        ensures
            r@ == self.message_view(),
    {
        match self {
            WeatherError::Network(m) => {
                let mut s = "Problem getting the weather data from tomorrow.io: ".to_owned();
                s.append(m.as_str());
                s
            },
            WeatherError::Parse(m) => {
                let mut s = "Problem parsing the weather data: ".to_owned();
                s.append(m.as_str());
                s
            },
            WeatherError::NotObject => {
                "Problem parsing the weather data: Parsed data can not be converted into an object".to_owned()
            },
            WeatherError::MissingValues => {
                "Unexpected response shape: no data.timelines[0].intervals[0].values object".to_owned()
            },
            WeatherError::BadField(f) => {
                let mut s = "Unexpected response shape: member ".to_owned();
                s.append(f.key());
                s.append(" is missing or of the wrong type");
                s
            },
            WeatherError::UnknownCode(c) => {
                let mut s = "Unrecognized weather code: ".to_owned();
                let digits = decimal_text(*c);
                s.append(digits.as_str());
                s
            },
        }
    }
}

} // verus!
