//! The fixed table from the service's weather codes to condition names.
use vstd::prelude::*;

verus! {

/// The condition name that the table gives for `code`, if any.
pub open spec fn condition_name(code: u64) -> Option<Seq<char>> {
    if code == 4201 {
        Some("Heavy Rain"@)
    } else if code == 4001 {
        Some("Rain"@)
    } else if code == 4200 {
        Some("Light Rain"@)
    } else if code == 6201 {
        Some("Heavy Freezing Rain"@)
    } else if code == 6001 {
        Some("Freezing Rain"@)
    } else if code == 6200 {
        Some("Light Freezing Rain"@)
    } else if code == 6000 {
        Some("Freezing Drizzle"@)
    } else if code == 4000 {
        Some("Drizzle"@)
    } else if code == 7101 {
        Some("Heavy Ice Pellets"@)
    } else if code == 7000 {
        Some("Ice Pellets"@)
    } else if code == 7102 {
        Some("Light Ice Pellets"@)
    } else if code == 5101 {
        Some("Heavy Snow"@)
    } else if code == 5000 {
        Some("Snow"@)
    } else if code == 5100 {
        Some("Light Snow"@)
    } else if code == 5001 {
        Some("Flurries"@)
    } else if code == 8000 {
        Some("Thunderstorm"@)
    } else if code == 2100 {
        Some("Light Fog"@)
    } else if code == 2000 {
        Some("Fog"@)
    } else if code == 1001 {
        Some("Cloudy"@)
    } else if code == 1102 {
        Some("Mostly Cloudy"@)
    } else if code == 1101 {
        Some("Partly Cloudy"@)
    } else if code == 1100 {
        Some("Mostly Clear"@)
    } else if code == 1000 {
        Some("Clear, Sunny"@)
    } else {
        None
    }
}

/// Looks `code` up in the table.
pub fn weather_name(code: u64) -> (r: Option<&'static str>)
    ensures
        r is Some <==> condition_name(code) is Some,
        r matches Some(s) ==> condition_name(code) == Some(s@),
{
    match code {
        4201 => Some("Heavy Rain"),
        4001 => Some("Rain"),
        4200 => Some("Light Rain"),
        6201 => Some("Heavy Freezing Rain"),
        6001 => Some("Freezing Rain"),
        6200 => Some("Light Freezing Rain"),
        6000 => Some("Freezing Drizzle"),
        4000 => Some("Drizzle"),
        7101 => Some("Heavy Ice Pellets"),
        7000 => Some("Ice Pellets"),
        7102 => Some("Light Ice Pellets"),
        5101 => Some("Heavy Snow"),
        5000 => Some("Snow"),
        5100 => Some("Light Snow"),
        5001 => Some("Flurries"),
        8000 => Some("Thunderstorm"),
        2100 => Some("Light Fog"),
        2000 => Some("Fog"),
        1001 => Some("Cloudy"),
        1102 => Some("Mostly Cloudy"),
        1101 => Some("Partly Cloudy"),
        1100 => Some("Mostly Clear"),
        1000 => Some("Clear, Sunny"),
        _ => None,
    }
}

} // verus!
