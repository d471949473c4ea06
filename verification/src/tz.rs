//! The timezone tables: an approximate longitude offset (in minutes)
//! for each supported timezone, a human-readable location name for it,
//! and the parsing of a zoneinfo path.  These are static configuration
//! data; the lookups are plain first-match tables, split by region.

use vstd::prelude::*;
use crate::text::{str_eq, str_has_prefix, has_prefix};

verus! {

pub open spec fn spec_offset_europe(tz: Seq<char>) -> Option<i32> {
    if tz == "Atlantic/Azores"@ {
        Some(-60i32)
    } else if tz == "Atlantic/Madeira"@ {
        Some(-30i32)
    } else if tz == "Europe/Lisbon"@ || tz == "Atlantic/Canary"@ {
        Some(-30i32)
    } else if tz == "Europe/London"@ || tz == "Europe/Dublin"@ || tz == "Europe/Guernsey"@ || tz == "Europe/Isle_of_Man"@ || tz == "Europe/Jersey"@ {
        Some(-30i32)
    } else if tz == "Africa/Casablanca"@ || tz == "Africa/El_Aaiun"@ {
        Some(-30i32)
    } else if tz == "Europe/Paris"@ || tz == "Europe/Brussels"@ || tz == "Europe/Amsterdam"@ || tz == "Europe/Luxembourg"@ {
        Some(0i32)
    } else if tz == "Europe/Monaco"@ || tz == "Europe/Andorra"@ || tz == "Europe/Madrid"@ {
        Some(0i32)
    } else if tz == "Europe/Gibraltar"@ || tz == "Africa/Algiers"@ || tz == "Africa/Tunis"@ {
        Some(0i32)
    } else if tz == "Europe/Berlin"@ || tz == "Europe/Vienna"@ || tz == "Europe/Zurich"@ || tz == "Europe/Rome"@ {
        Some(15i32)
    } else if tz == "Europe/Vatican"@ || tz == "Europe/San_Marino"@ || tz == "Europe/Malta"@ {
        Some(15i32)
    } else if tz == "Europe/Prague"@ || tz == "Europe/Warsaw"@ || tz == "Europe/Budapest"@ || tz == "Europe/Bratislava"@ {
        Some(15i32)
    } else if tz == "Europe/Belgrade"@ || tz == "Europe/Sarajevo"@ || tz == "Europe/Skopje"@ || tz == "Europe/Zagreb"@ {
        Some(15i32)
    } else if tz == "Europe/Tirane"@ || tz == "Europe/Sofia"@ || tz == "Europe/Bucharest"@ {
        Some(15i32)
    } else if tz == "Africa/Cairo"@ {
        Some(15i32)
    } else if tz == "Europe/Helsinki"@ || tz == "Europe/Tallinn"@ || tz == "Europe/Riga"@ || tz == "Europe/Vilnius"@ {
        Some(30i32)
    } else if tz == "Europe/Kiev"@ || tz == "Europe/Chisinau"@ || tz == "Europe/Uzhgorod"@ || tz == "Europe/Zaporozhye"@ {
        Some(30i32)
    } else if tz == "Europe/Istanbul"@ || tz == "Europe/Athens"@ || tz == "Europe/Nicosia"@ {
        Some(30i32)
    } else if tz == "Asia/Beirut"@ || tz == "Asia/Damascus"@ || tz == "Asia/Amman"@ || tz == "Asia/Jerusalem"@ {
        Some(30i32)
    } else if tz == "Asia/Gaza"@ || tz == "Asia/Hebron"@ {
        Some(30i32)
    } else if tz == "Africa/Johannesburg"@ || tz == "Africa/Windhoek"@ {
        Some(30i32)
    } else if tz == "Europe/Moscow"@ || tz == "Europe/Simferopol"@ || tz == "Europe/Kirov"@ || tz == "Europe/Volgograd"@ {
        Some(45i32)
    } else if tz == "Europe/Astrakhan"@ || tz == "Europe/Saratov"@ || tz == "Europe/Ulyanovsk"@ {
        Some(45i32)
    } else if tz == "Europe/Samara"@ {
        Some(60i32)
    } else if tz == "Asia/Yerevan"@ || tz == "Asia/Tbilisi"@ || tz == "Asia/Baku"@ {
        Some(45i32)
    } else {
        None
    }
}

pub open spec fn spec_offset_asia(tz: Seq<char>) -> Option<i32> {
    if tz == "Asia/Riyadh"@ || tz == "Asia/Qatar"@ || tz == "Asia/Bahrain"@ || tz == "Asia/Kuwait"@ {
        Some(45i32)
    } else if tz == "Asia/Aden"@ || tz == "Asia/Muscat"@ {
        Some(45i32)
    } else if tz == "Asia/Dubai"@ {
        Some(60i32)
    } else if tz == "Asia/Tehran"@ {
        Some(75i32)
    } else if tz == "Asia/Kabul"@ {
        Some(105i32)
    } else if tz == "Asia/Karachi"@ || tz == "Asia/Tashkent"@ {
        Some(120i32)
    } else if tz == "Asia/Yekaterinburg"@ {
        Some(120i32)
    } else if tz == "Asia/Colombo"@ {
        Some(135i32)
    } else if tz == "Asia/Kolkata"@ || tz == "Asia/Calcutta"@ {
        Some(135i32)
    } else if tz == "Asia/Kathmandu"@ {
        Some(142i32)
    } else if tz == "Asia/Dhaka"@ || tz == "Asia/Almaty"@ {
        Some(150i32)
    } else if tz == "Asia/Novosibirsk"@ {
        Some(150i32)
    } else if tz == "Asia/Yangon"@ {
        Some(157i32)
    } else if tz == "Asia/Bangkok"@ || tz == "Asia/Ho_Chi_Minh"@ || tz == "Asia/Phnom_Penh"@ || tz == "Asia/Vientiane"@ {
        Some(165i32)
    } else if tz == "Asia/Jakarta"@ || tz == "Asia/Pontianak"@ {
        Some(165i32)
    } else if tz == "Asia/Krasnoyarsk"@ {
        Some(165i32)
    } else if tz == "Asia/Shanghai"@ || tz == "Asia/Beijing"@ || tz == "Asia/Hong_Kong"@ || tz == "Asia/Macau"@ {
        Some(180i32)
    } else if tz == "Asia/Taipei"@ || tz == "Asia/Ulaanbaatar"@ {
        Some(180i32)
    } else if tz == "Asia/Singapore"@ || tz == "Asia/Kuala_Lumpur"@ {
        Some(180i32)
    } else if tz == "Asia/Manila"@ || tz == "Asia/Makassar"@ {
        Some(180i32)
    } else if tz == "Asia/Irkutsk"@ {
        Some(180i32)
    } else if tz == "Asia/Seoul"@ || tz == "Asia/Tokyo"@ {
        Some(195i32)
    } else if tz == "Asia/Yakutsk"@ {
        Some(195i32)
    } else {
        None
    }
}

pub open spec fn spec_offset_oceania(tz: Seq<char>) -> Option<i32> {
    if tz == "Australia/Perth"@ {
        Some(180i32)
    } else if tz == "Australia/Eucla"@ {
        Some(187i32)
    } else if tz == "Asia/Jayapura"@ {
        Some(195i32)
    } else if tz == "Australia/Darwin"@ {
        Some(195i32)
    } else if tz == "Australia/Adelaide"@ {
        Some(195i32)
    } else if tz == "Australia/Brisbane"@ || tz == "Australia/Lindeman"@ {
        Some(195i32)
    } else if tz == "Australia/Sydney"@ || tz == "Australia/Melbourne"@ || tz == "Australia/Hobart"@ {
        Some(195i32)
    } else if tz == "Australia/Lord_Howe"@ {
        Some(202i32)
    } else if tz == "Pacific/Guadalcanal"@ || tz == "Pacific/Noumea"@ {
        Some(210i32)
    } else if tz == "Pacific/Norfolk"@ {
        Some(210i32)
    } else if tz == "Pacific/Fiji"@ || tz == "Pacific/Tarawa"@ {
        Some(240i32)
    } else if tz == "Pacific/Auckland"@ || tz == "Pacific/Majuro"@ {
        Some(255i32)
    } else if tz == "Pacific/Chatham"@ {
        Some(268i32)
    } else if tz == "Pacific/Apia"@ || tz == "Pacific/Fakaofo"@ {
        Some(255i32)
    } else {
        None
    }
}

pub open spec fn spec_offset_americas(tz: Seq<char>) -> Option<i32> {
    if tz == "America/Los_Angeles"@ || tz == "America/Vancouver"@ || tz == "America/Tijuana"@ {
        Some(-480i32)
    } else if tz == "America/Whitehorse"@ || tz == "America/Dawson"@ {
        Some(-480i32)
    } else if tz == "America/Phoenix"@ || tz == "America/Hermosillo"@ {
        Some(-420i32)
    } else if tz == "America/Denver"@ || tz == "America/Edmonton"@ || tz == "America/Boise"@ {
        Some(-420i32)
    } else if tz == "America/Ciudad_Juarez"@ || tz == "America/Ojinaga"@ {
        Some(-420i32)
    } else if tz == "America/Chicago"@ || tz == "America/Winnipeg"@ || tz == "America/Rainy_River"@ {
        Some(-360i32)
    } else if tz == "America/Matamoros"@ || tz == "America/Mexico_City"@ || tz == "America/Monterrey"@ {
        Some(-360i32)
    } else if tz == "America/Regina"@ || tz == "America/Swift_Current"@ {
        Some(-360i32)
    } else if tz == "America/New_York"@ || tz == "America/Toronto"@ || tz == "America/Montreal"@ {
        Some(-300i32)
    } else if tz == "America/Detroit"@ || tz == "America/Indiana/Indianapolis"@ {
        Some(-300i32)
    } else if tz == "America/Cancun"@ || tz == "America/Havana"@ || tz == "America/Port-au-Prince"@ {
        Some(-300i32)
    } else if tz == "America/Nassau"@ || tz == "America/Jamaica"@ {
        Some(-300i32)
    } else if tz == "America/Panama"@ || tz == "America/Bogota"@ || tz == "America/Lima"@ {
        Some(-300i32)
    } else if tz == "America/Caracas"@ {
        Some(-270i32)
    } else if tz == "America/Santiago"@ || tz == "America/Asuncion"@ {
        Some(-240i32)
    } else if tz == "America/La_Paz"@ || tz == "America/Guyana"@ {
        Some(-240i32)
    } else if tz == "America/Argentina/Buenos_Aires"@ || tz == "America/Montevideo"@ {
        Some(-180i32)
    } else if tz == "America/Sao_Paulo"@ || tz == "America/Fortaleza"@ {
        Some(-180i32)
    } else if tz == "America/Nuuk"@ || tz == "America/Miquelon"@ {
        Some(-180i32)
    } else if tz == "America/Godthab"@ {
        Some(-180i32)
    } else if tz == "America/St_Johns"@ {
        Some(-210i32)
    } else {
        None
    }
}

pub open spec fn spec_offset_africa_atlantic(tz: Seq<char>) -> Option<i32> {
    if tz == "America/Noronha"@ {
        Some(-120i32)
    } else if tz == "Atlantic/South_Georgia"@ {
        Some(-120i32)
    } else if tz == "Atlantic/Cape_Verde"@ {
        Some(-60i32)
    } else if tz == "Africa/Abidjan"@ || tz == "Africa/Accra"@ || tz == "Africa/Bamako"@ {
        Some(-30i32)
    } else if tz == "Africa/Tripoli"@ {
        Some(0i32)
    } else {
        None
    }
}

pub open spec fn spec_offset_pacific(tz: Seq<char>) -> Option<i32> {
    if tz == "Pacific/Honolulu"@ {
        Some(-600i32)
    } else if tz == "Pacific/Marquesas"@ {
        Some(-570i32)
    } else if tz == "Pacific/Gambier"@ {
        Some(-540i32)
    } else if tz == "Pacific/Pitcairn"@ {
        Some(-480i32)
    } else if tz == "Pacific/Easter"@ {
        Some(-360i32)
    } else if tz == "Pacific/Galapagos"@ {
        Some(-360i32)
    } else if tz == "Pacific/Tahiti"@ {
        Some(-600i32)
    } else {
        None
    }
}

/// The longitude offset of a timezone, in minutes; unknown names
/// fall back to 0 (central Europe).
pub open spec fn spec_longitude_offset(tz: Seq<char>) -> int {
    if spec_offset_europe(tz) is Some {
        spec_offset_europe(tz)->0 as int
    } else if spec_offset_asia(tz) is Some {
        spec_offset_asia(tz)->0 as int
    } else if spec_offset_oceania(tz) is Some {
        spec_offset_oceania(tz)->0 as int
    } else if spec_offset_americas(tz) is Some {
        spec_offset_americas(tz)->0 as int
    } else if spec_offset_africa_atlantic(tz) is Some {
        spec_offset_africa_atlantic(tz)->0 as int
    } else if spec_offset_pacific(tz) is Some {
        spec_offset_pacific(tz)->0 as int
    } else {
        0
    }
}

fn offset_europe(tz: &str) -> (r: Option<i32>)
    ensures
        r == spec_offset_europe(tz@),
        r matches Some(v) ==> -600 <= v <= 268,
{
    if str_eq(tz, "Atlantic/Azores") {
        Some(-60)
    } else if str_eq(tz, "Atlantic/Madeira") {
        Some(-30)
    } else if str_eq(tz, "Europe/Lisbon") || str_eq(tz, "Atlantic/Canary") {
        Some(-30)
    } else if str_eq(tz, "Europe/London") || str_eq(tz, "Europe/Dublin") || str_eq(tz, "Europe/Guernsey") || str_eq(tz, "Europe/Isle_of_Man") || str_eq(tz, "Europe/Jersey") {
        Some(-30)
    } else if str_eq(tz, "Africa/Casablanca") || str_eq(tz, "Africa/El_Aaiun") {
        Some(-30)
    } else if str_eq(tz, "Europe/Paris") || str_eq(tz, "Europe/Brussels") || str_eq(tz, "Europe/Amsterdam") || str_eq(tz, "Europe/Luxembourg") {
        Some(0)
    } else if str_eq(tz, "Europe/Monaco") || str_eq(tz, "Europe/Andorra") || str_eq(tz, "Europe/Madrid") {
        Some(0)
    } else if str_eq(tz, "Europe/Gibraltar") || str_eq(tz, "Africa/Algiers") || str_eq(tz, "Africa/Tunis") {
        Some(0)
    } else if str_eq(tz, "Europe/Berlin") || str_eq(tz, "Europe/Vienna") || str_eq(tz, "Europe/Zurich") || str_eq(tz, "Europe/Rome") {
        Some(15)
    } else if str_eq(tz, "Europe/Vatican") || str_eq(tz, "Europe/San_Marino") || str_eq(tz, "Europe/Malta") {
        Some(15)
    } else if str_eq(tz, "Europe/Prague") || str_eq(tz, "Europe/Warsaw") || str_eq(tz, "Europe/Budapest") || str_eq(tz, "Europe/Bratislava") {
        Some(15)
    } else if str_eq(tz, "Europe/Belgrade") || str_eq(tz, "Europe/Sarajevo") || str_eq(tz, "Europe/Skopje") || str_eq(tz, "Europe/Zagreb") {
        Some(15)
    } else if str_eq(tz, "Europe/Tirane") || str_eq(tz, "Europe/Sofia") || str_eq(tz, "Europe/Bucharest") {
        Some(15)
    } else if str_eq(tz, "Africa/Cairo") {
        Some(15)
    } else if str_eq(tz, "Europe/Helsinki") || str_eq(tz, "Europe/Tallinn") || str_eq(tz, "Europe/Riga") || str_eq(tz, "Europe/Vilnius") {
        Some(30)
    } else if str_eq(tz, "Europe/Kiev") || str_eq(tz, "Europe/Chisinau") || str_eq(tz, "Europe/Uzhgorod") || str_eq(tz, "Europe/Zaporozhye") {
        Some(30)
    } else if str_eq(tz, "Europe/Istanbul") || str_eq(tz, "Europe/Athens") || str_eq(tz, "Europe/Nicosia") {
        Some(30)
    } else if str_eq(tz, "Asia/Beirut") || str_eq(tz, "Asia/Damascus") || str_eq(tz, "Asia/Amman") || str_eq(tz, "Asia/Jerusalem") {
        Some(30)
    } else if str_eq(tz, "Asia/Gaza") || str_eq(tz, "Asia/Hebron") {
        Some(30)
    } else if str_eq(tz, "Africa/Johannesburg") || str_eq(tz, "Africa/Windhoek") {
        Some(30)
    } else if str_eq(tz, "Europe/Moscow") || str_eq(tz, "Europe/Simferopol") || str_eq(tz, "Europe/Kirov") || str_eq(tz, "Europe/Volgograd") {
        Some(45)
    } else if str_eq(tz, "Europe/Astrakhan") || str_eq(tz, "Europe/Saratov") || str_eq(tz, "Europe/Ulyanovsk") {
        Some(45)
    } else if str_eq(tz, "Europe/Samara") {
        Some(60)
    } else if str_eq(tz, "Asia/Yerevan") || str_eq(tz, "Asia/Tbilisi") || str_eq(tz, "Asia/Baku") {
        Some(45)
    } else {
        None
    }
}

fn offset_asia(tz: &str) -> (r: Option<i32>)
    ensures
        r == spec_offset_asia(tz@),
        r matches Some(v) ==> -600 <= v <= 268,
{
    if str_eq(tz, "Asia/Riyadh") || str_eq(tz, "Asia/Qatar") || str_eq(tz, "Asia/Bahrain") || str_eq(tz, "Asia/Kuwait") {
        Some(45)
    } else if str_eq(tz, "Asia/Aden") || str_eq(tz, "Asia/Muscat") {
        Some(45)
    } else if str_eq(tz, "Asia/Dubai") {
        Some(60)
    } else if str_eq(tz, "Asia/Tehran") {
        Some(75)
    } else if str_eq(tz, "Asia/Kabul") {
        Some(105)
    } else if str_eq(tz, "Asia/Karachi") || str_eq(tz, "Asia/Tashkent") {
        Some(120)
    } else if str_eq(tz, "Asia/Yekaterinburg") {
        Some(120)
    } else if str_eq(tz, "Asia/Colombo") {
        Some(135)
    } else if str_eq(tz, "Asia/Kolkata") || str_eq(tz, "Asia/Calcutta") {
        Some(135)
    } else if str_eq(tz, "Asia/Kathmandu") {
        Some(142)
    } else if str_eq(tz, "Asia/Dhaka") || str_eq(tz, "Asia/Almaty") {
        Some(150)
    } else if str_eq(tz, "Asia/Novosibirsk") {
        Some(150)
    } else if str_eq(tz, "Asia/Yangon") {
        Some(157)
    } else if str_eq(tz, "Asia/Bangkok") || str_eq(tz, "Asia/Ho_Chi_Minh") || str_eq(tz, "Asia/Phnom_Penh") || str_eq(tz, "Asia/Vientiane") {
        Some(165)
    } else if str_eq(tz, "Asia/Jakarta") || str_eq(tz, "Asia/Pontianak") {
        Some(165)
    } else if str_eq(tz, "Asia/Krasnoyarsk") {
        Some(165)
    } else if str_eq(tz, "Asia/Shanghai") || str_eq(tz, "Asia/Beijing") || str_eq(tz, "Asia/Hong_Kong") || str_eq(tz, "Asia/Macau") {
        Some(180)
    } else if str_eq(tz, "Asia/Taipei") || str_eq(tz, "Asia/Ulaanbaatar") {
        Some(180)
    } else if str_eq(tz, "Asia/Singapore") || str_eq(tz, "Asia/Kuala_Lumpur") {
        Some(180)
    } else if str_eq(tz, "Asia/Manila") || str_eq(tz, "Asia/Makassar") {
        Some(180)
    } else if str_eq(tz, "Asia/Irkutsk") {
        Some(180)
    } else if str_eq(tz, "Asia/Seoul") || str_eq(tz, "Asia/Tokyo") {
        Some(195)
    } else if str_eq(tz, "Asia/Yakutsk") {
        Some(195)
    } else {
        None
    }
}

fn offset_oceania(tz: &str) -> (r: Option<i32>)
    ensures
        r == spec_offset_oceania(tz@),
        r matches Some(v) ==> -600 <= v <= 268,
{
    if str_eq(tz, "Australia/Perth") {
        Some(180)
    } else if str_eq(tz, "Australia/Eucla") {
        Some(187)
    } else if str_eq(tz, "Asia/Jayapura") {
        Some(195)
    } else if str_eq(tz, "Australia/Darwin") {
        Some(195)
    } else if str_eq(tz, "Australia/Adelaide") {
        Some(195)
    } else if str_eq(tz, "Australia/Brisbane") || str_eq(tz, "Australia/Lindeman") {
        Some(195)
    } else if str_eq(tz, "Australia/Sydney") || str_eq(tz, "Australia/Melbourne") || str_eq(tz, "Australia/Hobart") {
        Some(195)
    } else if str_eq(tz, "Australia/Lord_Howe") {
        Some(202)
    } else if str_eq(tz, "Pacific/Guadalcanal") || str_eq(tz, "Pacific/Noumea") {
        Some(210)
    } else if str_eq(tz, "Pacific/Norfolk") {
        Some(210)
    } else if str_eq(tz, "Pacific/Fiji") || str_eq(tz, "Pacific/Tarawa") {
        Some(240)
    } else if str_eq(tz, "Pacific/Auckland") || str_eq(tz, "Pacific/Majuro") {
        Some(255)
    } else if str_eq(tz, "Pacific/Chatham") {
        Some(268)
    } else if str_eq(tz, "Pacific/Apia") || str_eq(tz, "Pacific/Fakaofo") {
        Some(255)
    } else {
        None
    }
}

fn offset_americas(tz: &str) -> (r: Option<i32>)
    ensures
        r == spec_offset_americas(tz@),
        r matches Some(v) ==> -600 <= v <= 268,
{
    if str_eq(tz, "America/Los_Angeles") || str_eq(tz, "America/Vancouver") || str_eq(tz, "America/Tijuana") {
        Some(-480)
    } else if str_eq(tz, "America/Whitehorse") || str_eq(tz, "America/Dawson") {
        Some(-480)
    } else if str_eq(tz, "America/Phoenix") || str_eq(tz, "America/Hermosillo") {
        Some(-420)
    } else if str_eq(tz, "America/Denver") || str_eq(tz, "America/Edmonton") || str_eq(tz, "America/Boise") {
        Some(-420)
    } else if str_eq(tz, "America/Ciudad_Juarez") || str_eq(tz, "America/Ojinaga") {
        Some(-420)
    } else if str_eq(tz, "America/Chicago") || str_eq(tz, "America/Winnipeg") || str_eq(tz, "America/Rainy_River") {
        Some(-360)
    } else if str_eq(tz, "America/Matamoros") || str_eq(tz, "America/Mexico_City") || str_eq(tz, "America/Monterrey") {
        Some(-360)
    } else if str_eq(tz, "America/Regina") || str_eq(tz, "America/Swift_Current") {
        Some(-360)
    } else if str_eq(tz, "America/New_York") || str_eq(tz, "America/Toronto") || str_eq(tz, "America/Montreal") {
        Some(-300)
    } else if str_eq(tz, "America/Detroit") || str_eq(tz, "America/Indiana/Indianapolis") {
        Some(-300)
    } else if str_eq(tz, "America/Cancun") || str_eq(tz, "America/Havana") || str_eq(tz, "America/Port-au-Prince") {
        Some(-300)
    } else if str_eq(tz, "America/Nassau") || str_eq(tz, "America/Jamaica") {
        Some(-300)
    } else if str_eq(tz, "America/Panama") || str_eq(tz, "America/Bogota") || str_eq(tz, "America/Lima") {
        Some(-300)
    } else if str_eq(tz, "America/Caracas") {
        Some(-270)
    } else if str_eq(tz, "America/Santiago") || str_eq(tz, "America/Asuncion") {
        Some(-240)
    } else if str_eq(tz, "America/La_Paz") || str_eq(tz, "America/Guyana") {
        Some(-240)
    } else if str_eq(tz, "America/Argentina/Buenos_Aires") || str_eq(tz, "America/Montevideo") {
        Some(-180)
    } else if str_eq(tz, "America/Sao_Paulo") || str_eq(tz, "America/Fortaleza") {
        Some(-180)
    } else if str_eq(tz, "America/Nuuk") || str_eq(tz, "America/Miquelon") {
        Some(-180)
    } else if str_eq(tz, "America/Godthab") {
        Some(-180)
    } else if str_eq(tz, "America/St_Johns") {
        Some(-210)
    } else {
        None
    }
}

fn offset_africa_atlantic(tz: &str) -> (r: Option<i32>)
    ensures
        r == spec_offset_africa_atlantic(tz@),
        r matches Some(v) ==> -600 <= v <= 268,
{
    if str_eq(tz, "America/Noronha") {
        Some(-120)
    } else if str_eq(tz, "Atlantic/South_Georgia") {
        Some(-120)
    } else if str_eq(tz, "Atlantic/Cape_Verde") {
        Some(-60)
    } else if str_eq(tz, "Africa/Abidjan") || str_eq(tz, "Africa/Accra") || str_eq(tz, "Africa/Bamako") {
        Some(-30)
    } else if str_eq(tz, "Africa/Tripoli") {
        Some(0)
    } else {
        None
    }
}

fn offset_pacific(tz: &str) -> (r: Option<i32>)
    ensures
        r == spec_offset_pacific(tz@),
        r matches Some(v) ==> -600 <= v <= 268,
{
    if str_eq(tz, "Pacific/Honolulu") {
        Some(-600)
    } else if str_eq(tz, "Pacific/Marquesas") {
        Some(-570)
    } else if str_eq(tz, "Pacific/Gambier") {
        Some(-540)
    } else if str_eq(tz, "Pacific/Pitcairn") {
        Some(-480)
    } else if str_eq(tz, "Pacific/Easter") {
        Some(-360)
    } else if str_eq(tz, "Pacific/Galapagos") {
        Some(-360)
    } else if str_eq(tz, "Pacific/Tahiti") {
        Some(-600)
    } else {
        None
    }
}

/// Approximate longitude offset for a timezone, in minutes: how far
/// the sun's clock at that place runs ahead of or behind the table's
/// reference meridian.  Unknown timezones default to 0.
pub fn get_longitude_offset(timezone: &str) -> (r: i32)
    ensures
        r as int == spec_longitude_offset(timezone@),
        -600 <= r <= 268,
{
    if let Some(v) = offset_europe(timezone) {
        return v;
    }
    if let Some(v) = offset_asia(timezone) {
        return v;
    }
    if let Some(v) = offset_oceania(timezone) {
        return v;
    }
    if let Some(v) = offset_americas(timezone) {
        return v;
    }
    if let Some(v) = offset_africa_atlantic(timezone) {
        return v;
    }
    if let Some(v) = offset_pacific(timezone) {
        return v;
    }
    0
}

pub open spec fn spec_name_europe(tz: Seq<char>) -> Option<Seq<char>> {
    if tz == "Europe/Paris"@ {
        Some("Paris, France"@)
    } else if tz == "Europe/Brussels"@ {
        Some("Brussels, Belgium"@)
    } else if tz == "Europe/London"@ {
        Some("London, United Kingdom"@)
    } else if tz == "Europe/Berlin"@ {
        Some("Berlin, Germany"@)
    } else if tz == "Europe/Madrid"@ {
        Some("Madrid, Spain"@)
    } else if tz == "Europe/Rome"@ {
        Some("Rome, Italy"@)
    } else if tz == "Europe/Amsterdam"@ {
        Some("Amsterdam, Netherlands"@)
    } else if tz == "Europe/Lisbon"@ {
        Some("Lisbon, Portugal"@)
    } else if tz == "Europe/Vienna"@ {
        Some("Vienna, Austria"@)
    } else if tz == "Europe/Zurich"@ {
        Some("Zurich, Switzerland"@)
    } else if tz == "Europe/Warsaw"@ {
        Some("Warsaw, Poland"@)
    } else if tz == "Europe/Prague"@ {
        Some("Prague, Czech Republic"@)
    } else if tz == "Europe/Stockholm"@ {
        Some("Stockholm, Sweden"@)
    } else if tz == "Europe/Oslo"@ {
        Some("Oslo, Norway"@)
    } else if tz == "Europe/Copenhagen"@ {
        Some("Copenhagen, Denmark"@)
    } else if tz == "Europe/Helsinki"@ {
        Some("Helsinki, Finland"@)
    } else if tz == "Europe/Moscow"@ {
        Some("Moscow, Russia"@)
    } else if tz == "Europe/Kiev"@ {
        Some("Kyiv, Ukraine"@)
    } else if tz == "Europe/Bucharest"@ {
        Some("Bucharest, Romania"@)
    } else if tz == "Europe/Budapest"@ {
        Some("Budapest, Hungary"@)
    } else if tz == "Europe/Athens"@ {
        Some("Athens, Greece"@)
    } else if tz == "Europe/Dublin"@ {
        Some("Dublin, Ireland"@)
    } else if tz == "Europe/Sofia"@ {
        Some("Sofia, Bulgaria"@)
    } else if tz == "Europe/Belgrade"@ {
        Some("Belgrade, Serbia"@)
    } else if tz == "Europe/Zagreb"@ {
        Some("Zagreb, Croatia"@)
    } else if tz == "Europe/Sarajevo"@ {
        Some("Sarajevo, Bosnia and Herzegovina"@)
    } else if tz == "Europe/Skopje"@ {
        Some("Skopje, North Macedonia"@)
    } else if tz == "Europe/Tirane"@ {
        Some("Tirana, Albania"@)
    } else if tz == "Europe/Minsk"@ {
        Some("Minsk, Belarus"@)
    } else if tz == "Europe/Riga"@ {
        Some("Riga, Latvia"@)
    } else if tz == "Europe/Vilnius"@ {
        Some("Vilnius, Lithuania"@)
    } else if tz == "Europe/Tallinn"@ {
        Some("Tallinn, Estonia"@)
    } else if tz == "Europe/Chisinau"@ {
        Some("Chisinau, Moldova"@)
    } else if tz == "Europe/Bratislava"@ {
        Some("Bratislava, Slovakia"@)
    } else if tz == "Europe/Ljubljana"@ {
        Some("Ljubljana, Slovenia"@)
    } else if tz == "Europe/Luxembourg"@ {
        Some("Luxembourg City, Luxembourg"@)
    } else if tz == "Europe/Valletta"@ {
        Some("Valletta, Malta"@)
    } else if tz == "Europe/Monaco"@ {
        Some("Monaco"@)
    } else if tz == "Europe/San_Marino"@ {
        Some("San Marino"@)
    } else if tz == "Europe/Vatican"@ {
        Some("Vatican City"@)
    } else if tz == "Europe/Andorra"@ {
        Some("Andorra la Vella, Andorra"@)
    } else if tz == "Europe/Istanbul"@ {
        Some("Istanbul, Turkey"@)
    } else if tz == "Europe/Nicosia"@ {
        Some("Nicosia, Cyprus"@)
    } else {
        None
    }
}

pub open spec fn spec_name_north_america(tz: Seq<char>) -> Option<Seq<char>> {
    if tz == "America/New_York"@ || tz == "US/Eastern"@ {
        Some("New York City, USA"@)
    } else if tz == "America/Chicago"@ || tz == "US/Central"@ {
        Some("Chicago, USA"@)
    } else if tz == "America/Denver"@ || tz == "US/Mountain"@ {
        Some("Denver, USA"@)
    } else if tz == "America/Los_Angeles"@ || tz == "US/Pacific"@ {
        Some("Los Angeles, USA"@)
    } else if tz == "America/Phoenix"@ {
        Some("Phoenix, USA"@)
    } else if tz == "America/Anchorage"@ {
        Some("Anchorage, USA"@)
    } else if tz == "America/Honolulu"@ {
        Some("Honolulu, USA"@)
    } else if tz == "America/Toronto"@ {
        Some("Toronto, Canada"@)
    } else if tz == "America/Vancouver"@ {
        Some("Vancouver, Canada"@)
    } else if tz == "America/Montreal"@ {
        Some("Montreal, Canada"@)
    } else if tz == "America/Winnipeg"@ {
        Some("Winnipeg, Canada"@)
    } else if tz == "America/Edmonton"@ {
        Some("Edmonton, Canada"@)
    } else if tz == "America/Mexico_City"@ {
        Some("Mexico City, Mexico"@)
    } else if tz == "America/Cancun"@ {
        Some("Cancun, Mexico"@)
    } else if tz == "America/Havana"@ {
        Some("Havana, Cuba"@)
    } else if tz == "America/Port-au-Prince"@ {
        Some("Port-au-Prince, Haiti"@)
    } else if tz == "America/Santo_Domingo"@ {
        Some("Santo Domingo, Dominican Republic"@)
    } else if tz == "America/San_Juan"@ {
        Some("San Juan, Puerto Rico"@)
    } else if tz == "America/Nassau"@ {
        Some("Nassau, Bahamas"@)
    } else if tz == "America/Jamaica"@ {
        Some("Kingston, Jamaica"@)
    } else if tz == "America/Managua"@ {
        Some("Managua, Nicaragua"@)
    } else if tz == "America/Panama"@ {
        Some("Panama City, Panama"@)
    } else if tz == "America/Bogota"@ {
        Some("Bogota, Colombia"@)
    } else if tz == "America/Lima"@ {
        Some("Lima, Peru"@)
    } else if tz == "America/Caracas"@ {
        Some("Caracas, Venezuela"@)
    } else if tz == "America/Georgetown"@ {
        Some("Georgetown, Guyana"@)
    } else if tz == "America/Paramaribo"@ {
        Some("Paramaribo, Suriname"@)
    } else {
        None
    }
}

pub open spec fn spec_name_south_america(tz: Seq<char>) -> Option<Seq<char>> {
    if tz == "America/Santiago"@ {
        Some("Santiago, Chile"@)
    } else if tz == "America/Buenos_Aires"@ {
        Some("Buenos Aires, Argentina"@)
    } else if tz == "America/Sao_Paulo"@ {
        Some("Sao Paulo, Brazil"@)
    } else if tz == "America/Rio_de_Janeiro"@ {
        Some("Rio de Janeiro, Brazil"@)
    } else if tz == "America/Fortaleza"@ {
        Some("Fortaleza, Brazil"@)
    } else if tz == "America/Asuncion"@ {
        Some("Asuncion, Paraguay"@)
    } else if tz == "America/Montevideo"@ {
        Some("Montevideo, Uruguay"@)
    } else if tz == "America/La_Paz"@ {
        Some("La Paz, Bolivia"@)
    } else if tz == "America/Guayaquil"@ {
        Some("Guayaquil, Ecuador"@)
    } else if tz == "America/Quito"@ {
        Some("Quito, Ecuador"@)
    } else if tz == "America/Cayenne"@ {
        Some("Cayenne, French Guiana"@)
    } else {
        None
    }
}

pub open spec fn spec_name_asia(tz: Seq<char>) -> Option<Seq<char>> {
    if tz == "Asia/Tokyo"@ {
        Some("Tokyo, Japan"@)
    } else if tz == "Asia/Shanghai"@ {
        Some("Shanghai, China"@)
    } else if tz == "Asia/Beijing"@ {
        Some("Beijing, China"@)
    } else if tz == "Asia/Hong_Kong"@ {
        Some("Hong Kong"@)
    } else if tz == "Asia/Macau"@ {
        Some("Macau"@)
    } else if tz == "Asia/Taipei"@ {
        Some("Taipei, Taiwan"@)
    } else if tz == "Asia/Seoul"@ {
        Some("Seoul, South Korea"@)
    } else if tz == "Asia/Pyongyang"@ {
        Some("Pyongyang, North Korea"@)
    } else if tz == "Asia/Ulaanbaatar"@ {
        Some("Ulaanbaatar, Mongolia"@)
    } else if tz == "Asia/Singapore"@ {
        Some("Singapore"@)
    } else if tz == "Asia/Kuala_Lumpur"@ {
        Some("Kuala Lumpur, Malaysia"@)
    } else if tz == "Asia/Jakarta"@ {
        Some("Jakarta, Indonesia"@)
    } else if tz == "Asia/Bangkok"@ {
        Some("Bangkok, Thailand"@)
    } else if tz == "Asia/Manila"@ {
        Some("Manila, Philippines"@)
    } else if tz == "Asia/Ho_Chi_Minh"@ {
        Some("Ho Chi Minh City, Vietnam"@)
    } else if tz == "Asia/Hanoi"@ {
        Some("Hanoi, Vietnam"@)
    } else if tz == "Asia/Phnom_Penh"@ {
        Some("Phnom Penh, Cambodia"@)
    } else if tz == "Asia/Vientiane"@ {
        Some("Vientiane, Laos"@)
    } else if tz == "Asia/Yangon"@ {
        Some("Yangon, Myanmar"@)
    } else if tz == "Asia/Dhaka"@ {
        Some("Dhaka, Bangladesh"@)
    } else if tz == "Asia/Kolkata"@ {
        Some("Kolkata, India"@)
    } else if tz == "Asia/Delhi"@ {
        Some("New Delhi, India"@)
    } else if tz == "Asia/Mumbai"@ {
        Some("Mumbai, India"@)
    } else if tz == "Asia/Chennai"@ {
        Some("Chennai, India"@)
    } else if tz == "Asia/Karachi"@ {
        Some("Karachi, Pakistan"@)
    } else if tz == "Asia/Lahore"@ {
        Some("Lahore, Pakistan"@)
    } else if tz == "Asia/Kabul"@ {
        Some("Kabul, Afghanistan"@)
    } else if tz == "Asia/Tehran"@ {
        Some("Tehran, Iran"@)
    } else if tz == "Asia/Baghdad"@ {
        Some("Baghdad, Iraq"@)
    } else if tz == "Asia/Riyadh"@ {
        Some("Riyadh, Saudi Arabia"@)
    } else if tz == "Asia/Dubai"@ {
        Some("Dubai, UAE"@)
    } else if tz == "Asia/Muscat"@ {
        Some("Muscat, Oman"@)
    } else if tz == "Asia/Doha"@ {
        Some("Doha, Qatar"@)
    } else if tz == "Asia/Kuwait"@ {
        Some("Kuwait City, Kuwait"@)
    } else if tz == "Asia/Bahrain"@ {
        Some("Manama, Bahrain"@)
    } else if tz == "Asia/Amman"@ {
        Some("Amman, Jordan"@)
    } else if tz == "Asia/Beirut"@ {
        Some("Beirut, Lebanon"@)
    } else if tz == "Asia/Damascus"@ {
        Some("Damascus, Syria"@)
    } else if tz == "Asia/Jerusalem"@ {
        Some("Jerusalem, Israel"@)
    } else if tz == "Asia/Gaza"@ || tz == "Asia/Hebron"@ {
        Some("Palestine"@)
    } else if tz == "Asia/Yerevan"@ {
        Some("Yerevan, Armenia"@)
    } else if tz == "Asia/Baku"@ {
        Some("Baku, Azerbaijan"@)
    } else if tz == "Asia/Tbilisi"@ {
        Some("Tbilisi, Georgia"@)
    } else if tz == "Asia/Ashgabat"@ {
        Some("Ashgabat, Turkmenistan"@)
    } else if tz == "Asia/Tashkent"@ {
        Some("Tashkent, Uzbekistan"@)
    } else if tz == "Asia/Dushanbe"@ {
        Some("Dushanbe, Tajikistan"@)
    } else if tz == "Asia/Bishkek"@ {
        Some("Bishkek, Kyrgyzstan"@)
    } else if tz == "Asia/Almaty"@ {
        Some("Almaty, Kazakhstan"@)
    } else if tz == "Asia/Colombo"@ {
        Some("Colombo, Sri Lanka"@)
    } else if tz == "Asia/Kathmandu"@ {
        Some("Kathmandu, Nepal"@)
    } else if tz == "Asia/Thimphu"@ {
        Some("Thimphu, Bhutan"@)
    } else if tz == "Asia/Male"@ {
        Some("Male, Maldives"@)
    } else {
        None
    }
}

pub open spec fn spec_name_africa(tz: Seq<char>) -> Option<Seq<char>> {
    if tz == "Africa/Cairo"@ {
        Some("Cairo, Egypt"@)
    } else if tz == "Africa/Johannesburg"@ {
        Some("Johannesburg, South Africa"@)
    } else if tz == "Africa/Cape_Town"@ {
        Some("Cape Town, South Africa"@)
    } else if tz == "Africa/Lagos"@ {
        Some("Lagos, Nigeria"@)
    } else if tz == "Africa/Kinshasa"@ {
        Some("Kinshasa, DR Congo"@)
    } else if tz == "Africa/Nairobi"@ {
        Some("Nairobi, Kenya"@)
    } else if tz == "Africa/Addis_Ababa"@ {
        Some("Addis Ababa, Ethiopia"@)
    } else if tz == "Africa/Dar_es_Salaam"@ {
        Some("Dar es Salaam, Tanzania"@)
    } else if tz == "Africa/Khartoum"@ {
        Some("Khartoum, Sudan"@)
    } else if tz == "Africa/Algiers"@ {
        Some("Algiers, Algeria"@)
    } else if tz == "Africa/Casablanca"@ {
        Some("Casablanca, Morocco"@)
    } else if tz == "Africa/Tunis"@ {
        Some("Tunis, Tunisia"@)
    } else if tz == "Africa/Tripoli"@ {
        Some("Tripoli, Libya"@)
    } else if tz == "Africa/Accra"@ {
        Some("Accra, Ghana"@)
    } else if tz == "Africa/Dakar"@ {
        Some("Dakar, Senegal"@)
    } else if tz == "Africa/Abidjan"@ {
        Some("Abidjan, Ivory Coast"@)
    } else if tz == "Africa/Bamako"@ {
        Some("Bamako, Mali"@)
    } else if tz == "Africa/Ouagadougou"@ {
        Some("Ouagadougou, Burkina Faso"@)
    } else if tz == "Africa/Conakry"@ {
        Some("Conakry, Guinea"@)
    } else if tz == "Africa/Freetown"@ {
        Some("Freetown, Sierra Leone"@)
    } else if tz == "Africa/Monrovia"@ {
        Some("Monrovia, Liberia"@)
    } else if tz == "Africa/Lome"@ {
        Some("Lome, Togo"@)
    } else if tz == "Africa/Porto-Novo"@ {
        Some("Porto-Novo, Benin"@)
    } else if tz == "Africa/Niamey"@ {
        Some("Niamey, Niger"@)
    } else if tz == "Africa/Ndjamena"@ {
        Some("Ndjamena, Chad"@)
    } else if tz == "Africa/Bangui"@ {
        Some("Bangui, Central African Republic"@)
    } else if tz == "Africa/Brazzaville"@ {
        Some("Brazzaville, Republic of the Congo"@)
    } else if tz == "Africa/Luanda"@ {
        Some("Luanda, Angola"@)
    } else if tz == "Africa/Lusaka"@ {
        Some("Lusaka, Zambia"@)
    } else if tz == "Africa/Harare"@ {
        Some("Harare, Zimbabwe"@)
    } else if tz == "Africa/Maputo"@ {
        Some("Maputo, Mozambique"@)
    } else if tz == "Africa/Blantyre"@ {
        Some("Blantyre, Malawi"@)
    } else if tz == "Africa/Gaborone"@ {
        Some("Gaborone, Botswana"@)
    } else if tz == "Africa/Maseru"@ {
        Some("Maseru, Lesotho"@)
    } else if tz == "Africa/Mbabane"@ {
        Some("Mbabane, Eswatini"@)
    } else if tz == "Africa/Mogadishu"@ {
        Some("Mogadishu, Somalia"@)
    } else if tz == "Africa/Djibouti"@ {
        Some("Djibouti City, Djibouti"@)
    } else if tz == "Africa/Asmara"@ {
        Some("Asmara, Eritrea"@)
    } else if tz == "Africa/Bujumbura"@ {
        Some("Bujumbura, Burundi"@)
    } else if tz == "Africa/Kigali"@ {
        Some("Kigali, Rwanda"@)
    } else if tz == "Africa/Kampala"@ {
        Some("Kampala, Uganda"@)
    } else if tz == "Africa/Douala"@ {
        Some("Douala, Cameroon"@)
    } else if tz == "Africa/Libreville"@ {
        Some("Libreville, Gabon"@)
    } else if tz == "Africa/Malabo"@ {
        Some("Malabo, Equatorial Guinea"@)
    } else if tz == "Africa/Sao_Tome"@ {
        Some("Sao Tome, Sao Tome and Principe"@)
    } else if tz == "Africa/Windhoek"@ {
        Some("Windhoek, Namibia"@)
    } else if tz == "Africa/Port_Louis"@ {
        Some("Port Louis, Mauritius"@)
    } else if tz == "Africa/Victoria"@ {
        Some("Victoria, Seychelles"@)
    } else if tz == "Africa/Nouakchott"@ {
        Some("Nouakchott, Mauritania"@)
    } else if tz == "Africa/Banjul"@ {
        Some("Banjul, Gambia"@)
    } else if tz == "Africa/Guinea-Bissau"@ {
        Some("Bissau, Guinea-Bissau"@)
    } else {
        None
    }
}

pub open spec fn spec_name_oceania(tz: Seq<char>) -> Option<Seq<char>> {
    if tz == "Australia/Sydney"@ {
        Some("Sydney, Australia"@)
    } else if tz == "Australia/Melbourne"@ {
        Some("Melbourne, Australia"@)
    } else if tz == "Australia/Brisbane"@ {
        Some("Brisbane, Australia"@)
    } else if tz == "Australia/Perth"@ {
        Some("Perth, Australia"@)
    } else if tz == "Australia/Adelaide"@ {
        Some("Adelaide, Australia"@)
    } else if tz == "Australia/Hobart"@ {
        Some("Hobart, Australia"@)
    } else if tz == "Australia/Darwin"@ {
        Some("Darwin, Australia"@)
    } else if tz == "Australia/Canberra"@ {
        Some("Canberra, Australia"@)
    } else if tz == "Pacific/Auckland"@ {
        Some("Auckland, New Zealand"@)
    } else if tz == "Pacific/Wellington"@ {
        Some("Wellington, New Zealand"@)
    } else if tz == "Pacific/Fiji"@ {
        Some("Suva, Fiji"@)
    } else if tz == "Pacific/Port_Moresby"@ {
        Some("Port Moresby, Papua New Guinea"@)
    } else if tz == "Pacific/Guadalcanal"@ {
        Some("Honiara, Solomon Islands"@)
    } else if tz == "Pacific/Noumea"@ {
        Some("Noumea, New Caledonia"@)
    } else if tz == "Pacific/Tarawa"@ {
        Some("Tarawa, Kiribati"@)
    } else if tz == "Pacific/Majuro"@ {
        Some("Majuro, Marshall Islands"@)
    } else if tz == "Pacific/Palau"@ {
        Some("Ngerulmud, Palau"@)
    } else if tz == "Pacific/Chuuk"@ {
        Some("Chuuk, Micronesia"@)
    } else if tz == "Pacific/Guam"@ {
        Some("Hagatna, Guam"@)
    } else if tz == "Pacific/Saipan"@ {
        Some("Saipan, Northern Mariana Islands"@)
    } else if tz == "Pacific/Honolulu"@ {
        Some("Honolulu, Hawaii, USA"@)
    } else if tz == "Pacific/Tahiti"@ {
        Some("Papeete, French Polynesia"@)
    } else if tz == "Pacific/Rarotonga"@ {
        Some("Avarua, Cook Islands"@)
    } else if tz == "Pacific/Apia"@ {
        Some("Apia, Samoa"@)
    } else if tz == "Pacific/Niue"@ {
        Some("Alofi, Niue"@)
    } else if tz == "Pacific/Tongatapu"@ {
        Some("Nuku'alofa, Tonga"@)
    } else if tz == "Pacific/Funafuti"@ {
        Some("Funafuti, Tuvalu"@)
    } else if tz == "Pacific/Wake"@ {
        Some("Wake Island, USA"@)
    } else if tz == "Pacific/Easter"@ {
        Some("Easter Island, Chile"@)
    } else {
        None
    }
}

pub open spec fn spec_name_antarctica(tz: Seq<char>) -> Option<Seq<char>> {
    if tz == "Antarctica/McMurdo"@ {
        Some("McMurdo Station, Antarctica"@)
    } else if tz == "Antarctica/Casey"@ {
        Some("Casey Station, Antarctica"@)
    } else if tz == "Antarctica/Davis"@ {
        Some("Davis Station, Antarctica"@)
    } else if tz == "Antarctica/Mawson"@ {
        Some("Mawson Station, Antarctica"@)
    } else if tz == "Antarctica/Palmer"@ {
        Some("Palmer Station, Antarctica"@)
    } else if tz == "Antarctica/Rothera"@ {
        Some("Rothera Station, Antarctica"@)
    } else if tz == "Antarctica/Syowa"@ {
        Some("Syowa Station, Antarctica"@)
    } else if tz == "Antarctica/Troll"@ {
        Some("Troll Station, Antarctica"@)
    } else if tz == "Antarctica/Vostok"@ {
        Some("Vostok Station, Antarctica"@)
    } else {
        None
    }
}

pub open spec fn spec_name_region(tz: Seq<char>) -> Option<Seq<char>> {
    if has_prefix(tz, "Europe/"@) {
        Some("Europe"@)
    } else if has_prefix(tz, "America/"@) {
        Some("Americas"@)
    } else if has_prefix(tz, "Asia/"@) {
        Some("Asia"@)
    } else if has_prefix(tz, "Africa/"@) {
        Some("Africa"@)
    } else if has_prefix(tz, "Australia/"@) {
        Some("Australia"@)
    } else if has_prefix(tz, "Pacific/"@) {
        Some("Pacific Islands"@)
    } else if has_prefix(tz, "Atlantic/"@) {
        Some("Atlantic Region"@)
    } else if has_prefix(tz, "Indian/"@) {
        Some("Indian Ocean Region"@)
    } else if has_prefix(tz, "Antarctica/"@) {
        Some("Antarctica"@)
    } else {
        None
    }
}

/// The location name reported for a timezone: an exact entry where
/// one exists, else a region name from the path prefix, else nothing.
pub open spec fn spec_location_name(tz: Seq<char>) -> Option<Seq<char>> {
    if spec_name_europe(tz) is Some {
        spec_name_europe(tz)
    } else if spec_name_north_america(tz) is Some {
        spec_name_north_america(tz)
    } else if spec_name_south_america(tz) is Some {
        spec_name_south_america(tz)
    } else if spec_name_asia(tz) is Some {
        spec_name_asia(tz)
    } else if spec_name_africa(tz) is Some {
        spec_name_africa(tz)
    } else if spec_name_oceania(tz) is Some {
        spec_name_oceania(tz)
    } else if spec_name_antarctica(tz) is Some {
        spec_name_antarctica(tz)
    } else {
        spec_name_region(tz)
    }
}

fn name_europe(tz: &str) -> (r: Option<String>)
    ensures
        r.deep_view() == spec_name_europe(tz@),
{
    if str_eq(tz, "Europe/Paris") {
        Some(String::from_str("Paris, France"))
    } else if str_eq(tz, "Europe/Brussels") {
        Some(String::from_str("Brussels, Belgium"))
    } else if str_eq(tz, "Europe/London") {
        Some(String::from_str("London, United Kingdom"))
    } else if str_eq(tz, "Europe/Berlin") {
        Some(String::from_str("Berlin, Germany"))
    } else if str_eq(tz, "Europe/Madrid") {
        Some(String::from_str("Madrid, Spain"))
    } else if str_eq(tz, "Europe/Rome") {
        Some(String::from_str("Rome, Italy"))
    } else if str_eq(tz, "Europe/Amsterdam") {
        Some(String::from_str("Amsterdam, Netherlands"))
    } else if str_eq(tz, "Europe/Lisbon") {
        Some(String::from_str("Lisbon, Portugal"))
    } else if str_eq(tz, "Europe/Vienna") {
        Some(String::from_str("Vienna, Austria"))
    } else if str_eq(tz, "Europe/Zurich") {
        Some(String::from_str("Zurich, Switzerland"))
    } else if str_eq(tz, "Europe/Warsaw") {
        Some(String::from_str("Warsaw, Poland"))
    } else if str_eq(tz, "Europe/Prague") {
        Some(String::from_str("Prague, Czech Republic"))
    } else if str_eq(tz, "Europe/Stockholm") {
        Some(String::from_str("Stockholm, Sweden"))
    } else if str_eq(tz, "Europe/Oslo") {
        Some(String::from_str("Oslo, Norway"))
    } else if str_eq(tz, "Europe/Copenhagen") {
        Some(String::from_str("Copenhagen, Denmark"))
    } else if str_eq(tz, "Europe/Helsinki") {
        Some(String::from_str("Helsinki, Finland"))
    } else if str_eq(tz, "Europe/Moscow") {
        Some(String::from_str("Moscow, Russia"))
    } else if str_eq(tz, "Europe/Kiev") {
        Some(String::from_str("Kyiv, Ukraine"))
    } else if str_eq(tz, "Europe/Bucharest") {
        Some(String::from_str("Bucharest, Romania"))
    } else if str_eq(tz, "Europe/Budapest") {
        Some(String::from_str("Budapest, Hungary"))
    } else if str_eq(tz, "Europe/Athens") {
        Some(String::from_str("Athens, Greece"))
    } else if str_eq(tz, "Europe/Dublin") {
        Some(String::from_str("Dublin, Ireland"))
    } else if str_eq(tz, "Europe/Sofia") {
        Some(String::from_str("Sofia, Bulgaria"))
    } else if str_eq(tz, "Europe/Belgrade") {
        Some(String::from_str("Belgrade, Serbia"))
    } else if str_eq(tz, "Europe/Zagreb") {
        Some(String::from_str("Zagreb, Croatia"))
    } else if str_eq(tz, "Europe/Sarajevo") {
        Some(String::from_str("Sarajevo, Bosnia and Herzegovina"))
    } else if str_eq(tz, "Europe/Skopje") {
        Some(String::from_str("Skopje, North Macedonia"))
    } else if str_eq(tz, "Europe/Tirane") {
        Some(String::from_str("Tirana, Albania"))
    } else if str_eq(tz, "Europe/Minsk") {
        Some(String::from_str("Minsk, Belarus"))
    } else if str_eq(tz, "Europe/Riga") {
        Some(String::from_str("Riga, Latvia"))
    } else if str_eq(tz, "Europe/Vilnius") {
        Some(String::from_str("Vilnius, Lithuania"))
    } else if str_eq(tz, "Europe/Tallinn") {
        Some(String::from_str("Tallinn, Estonia"))
    } else if str_eq(tz, "Europe/Chisinau") {
        Some(String::from_str("Chisinau, Moldova"))
    } else if str_eq(tz, "Europe/Bratislava") {
        Some(String::from_str("Bratislava, Slovakia"))
    } else if str_eq(tz, "Europe/Ljubljana") {
        Some(String::from_str("Ljubljana, Slovenia"))
    } else if str_eq(tz, "Europe/Luxembourg") {
        Some(String::from_str("Luxembourg City, Luxembourg"))
    } else if str_eq(tz, "Europe/Valletta") {
        Some(String::from_str("Valletta, Malta"))
    } else if str_eq(tz, "Europe/Monaco") {
        Some(String::from_str("Monaco"))
    } else if str_eq(tz, "Europe/San_Marino") {
        Some(String::from_str("San Marino"))
    } else if str_eq(tz, "Europe/Vatican") {
        Some(String::from_str("Vatican City"))
    } else if str_eq(tz, "Europe/Andorra") {
        Some(String::from_str("Andorra la Vella, Andorra"))
    } else if str_eq(tz, "Europe/Istanbul") {
        Some(String::from_str("Istanbul, Turkey"))
    } else if str_eq(tz, "Europe/Nicosia") {
        Some(String::from_str("Nicosia, Cyprus"))
    } else {
        None
    }
}

fn name_north_america(tz: &str) -> (r: Option<String>)
    ensures
        r.deep_view() == spec_name_north_america(tz@),
{
    if str_eq(tz, "America/New_York") || str_eq(tz, "US/Eastern") {
        Some(String::from_str("New York City, USA"))
    } else if str_eq(tz, "America/Chicago") || str_eq(tz, "US/Central") {
        Some(String::from_str("Chicago, USA"))
    } else if str_eq(tz, "America/Denver") || str_eq(tz, "US/Mountain") {
        Some(String::from_str("Denver, USA"))
    } else if str_eq(tz, "America/Los_Angeles") || str_eq(tz, "US/Pacific") {
        Some(String::from_str("Los Angeles, USA"))
    } else if str_eq(tz, "America/Phoenix") {
        Some(String::from_str("Phoenix, USA"))
    } else if str_eq(tz, "America/Anchorage") {
        Some(String::from_str("Anchorage, USA"))
    } else if str_eq(tz, "America/Honolulu") {
        Some(String::from_str("Honolulu, USA"))
    } else if str_eq(tz, "America/Toronto") {
        Some(String::from_str("Toronto, Canada"))
    } else if str_eq(tz, "America/Vancouver") {
        Some(String::from_str("Vancouver, Canada"))
    } else if str_eq(tz, "America/Montreal") {
        Some(String::from_str("Montreal, Canada"))
    } else if str_eq(tz, "America/Winnipeg") {
        Some(String::from_str("Winnipeg, Canada"))
    } else if str_eq(tz, "America/Edmonton") {
        Some(String::from_str("Edmonton, Canada"))
    } else if str_eq(tz, "America/Mexico_City") {
        Some(String::from_str("Mexico City, Mexico"))
    } else if str_eq(tz, "America/Cancun") {
        Some(String::from_str("Cancun, Mexico"))
    } else if str_eq(tz, "America/Havana") {
        Some(String::from_str("Havana, Cuba"))
    } else if str_eq(tz, "America/Port-au-Prince") {
        Some(String::from_str("Port-au-Prince, Haiti"))
    } else if str_eq(tz, "America/Santo_Domingo") {
        Some(String::from_str("Santo Domingo, Dominican Republic"))
    } else if str_eq(tz, "America/San_Juan") {
        Some(String::from_str("San Juan, Puerto Rico"))
    } else if str_eq(tz, "America/Nassau") {
        Some(String::from_str("Nassau, Bahamas"))
    } else if str_eq(tz, "America/Jamaica") {
        Some(String::from_str("Kingston, Jamaica"))
    } else if str_eq(tz, "America/Managua") {
        Some(String::from_str("Managua, Nicaragua"))
    } else if str_eq(tz, "America/Panama") {
        Some(String::from_str("Panama City, Panama"))
    } else if str_eq(tz, "America/Bogota") {
        Some(String::from_str("Bogota, Colombia"))
    } else if str_eq(tz, "America/Lima") {
        Some(String::from_str("Lima, Peru"))
    } else if str_eq(tz, "America/Caracas") {
        Some(String::from_str("Caracas, Venezuela"))
    } else if str_eq(tz, "America/Georgetown") {
        Some(String::from_str("Georgetown, Guyana"))
    } else if str_eq(tz, "America/Paramaribo") {
        Some(String::from_str("Paramaribo, Suriname"))
    } else {
        None
    }
}

fn name_south_america(tz: &str) -> (r: Option<String>)
    ensures
        r.deep_view() == spec_name_south_america(tz@),
{
    if str_eq(tz, "America/Santiago") {
        Some(String::from_str("Santiago, Chile"))
    } else if str_eq(tz, "America/Buenos_Aires") {
        Some(String::from_str("Buenos Aires, Argentina"))
    } else if str_eq(tz, "America/Sao_Paulo") {
        Some(String::from_str("Sao Paulo, Brazil"))
    } else if str_eq(tz, "America/Rio_de_Janeiro") {
        Some(String::from_str("Rio de Janeiro, Brazil"))
    } else if str_eq(tz, "America/Fortaleza") {
        Some(String::from_str("Fortaleza, Brazil"))
    } else if str_eq(tz, "America/Asuncion") {
        Some(String::from_str("Asuncion, Paraguay"))
    } else if str_eq(tz, "America/Montevideo") {
        Some(String::from_str("Montevideo, Uruguay"))
    } else if str_eq(tz, "America/La_Paz") {
        Some(String::from_str("La Paz, Bolivia"))
    } else if str_eq(tz, "America/Guayaquil") {
        Some(String::from_str("Guayaquil, Ecuador"))
    } else if str_eq(tz, "America/Quito") {
        Some(String::from_str("Quito, Ecuador"))
    } else if str_eq(tz, "America/Cayenne") {
        Some(String::from_str("Cayenne, French Guiana"))
    } else {
        None
    }
}

fn name_asia(tz: &str) -> (r: Option<String>)
    ensures
        r.deep_view() == spec_name_asia(tz@),
{
    if str_eq(tz, "Asia/Tokyo") {
        Some(String::from_str("Tokyo, Japan"))
    } else if str_eq(tz, "Asia/Shanghai") {
        Some(String::from_str("Shanghai, China"))
    } else if str_eq(tz, "Asia/Beijing") {
        Some(String::from_str("Beijing, China"))
    } else if str_eq(tz, "Asia/Hong_Kong") {
        Some(String::from_str("Hong Kong"))
    } else if str_eq(tz, "Asia/Macau") {
        Some(String::from_str("Macau"))
    } else if str_eq(tz, "Asia/Taipei") {
        Some(String::from_str("Taipei, Taiwan"))
    } else if str_eq(tz, "Asia/Seoul") {
        Some(String::from_str("Seoul, South Korea"))
    } else if str_eq(tz, "Asia/Pyongyang") {
        Some(String::from_str("Pyongyang, North Korea"))
    } else if str_eq(tz, "Asia/Ulaanbaatar") {
        Some(String::from_str("Ulaanbaatar, Mongolia"))
    } else if str_eq(tz, "Asia/Singapore") {
        Some(String::from_str("Singapore"))
    } else if str_eq(tz, "Asia/Kuala_Lumpur") {
        Some(String::from_str("Kuala Lumpur, Malaysia"))
    } else if str_eq(tz, "Asia/Jakarta") {
        Some(String::from_str("Jakarta, Indonesia"))
    } else if str_eq(tz, "Asia/Bangkok") {
        Some(String::from_str("Bangkok, Thailand"))
    } else if str_eq(tz, "Asia/Manila") {
        Some(String::from_str("Manila, Philippines"))
    } else if str_eq(tz, "Asia/Ho_Chi_Minh") {
        Some(String::from_str("Ho Chi Minh City, Vietnam"))
    } else if str_eq(tz, "Asia/Hanoi") {
        Some(String::from_str("Hanoi, Vietnam"))
    } else if str_eq(tz, "Asia/Phnom_Penh") {
        Some(String::from_str("Phnom Penh, Cambodia"))
    } else if str_eq(tz, "Asia/Vientiane") {
        Some(String::from_str("Vientiane, Laos"))
    } else if str_eq(tz, "Asia/Yangon") {
        Some(String::from_str("Yangon, Myanmar"))
    } else if str_eq(tz, "Asia/Dhaka") {
        Some(String::from_str("Dhaka, Bangladesh"))
    } else if str_eq(tz, "Asia/Kolkata") {
        Some(String::from_str("Kolkata, India"))
    } else if str_eq(tz, "Asia/Delhi") {
        Some(String::from_str("New Delhi, India"))
    } else if str_eq(tz, "Asia/Mumbai") {
        Some(String::from_str("Mumbai, India"))
    } else if str_eq(tz, "Asia/Chennai") {
        Some(String::from_str("Chennai, India"))
    } else if str_eq(tz, "Asia/Karachi") {
        Some(String::from_str("Karachi, Pakistan"))
    } else if str_eq(tz, "Asia/Lahore") {
        Some(String::from_str("Lahore, Pakistan"))
    } else if str_eq(tz, "Asia/Kabul") {
        Some(String::from_str("Kabul, Afghanistan"))
    } else if str_eq(tz, "Asia/Tehran") {
        Some(String::from_str("Tehran, Iran"))
    } else if str_eq(tz, "Asia/Baghdad") {
        Some(String::from_str("Baghdad, Iraq"))
    } else if str_eq(tz, "Asia/Riyadh") {
        Some(String::from_str("Riyadh, Saudi Arabia"))
    } else if str_eq(tz, "Asia/Dubai") {
        Some(String::from_str("Dubai, UAE"))
    } else if str_eq(tz, "Asia/Muscat") {
        Some(String::from_str("Muscat, Oman"))
    } else if str_eq(tz, "Asia/Doha") {
        Some(String::from_str("Doha, Qatar"))
    } else if str_eq(tz, "Asia/Kuwait") {
        Some(String::from_str("Kuwait City, Kuwait"))
    } else if str_eq(tz, "Asia/Bahrain") {
        Some(String::from_str("Manama, Bahrain"))
    } else if str_eq(tz, "Asia/Amman") {
        Some(String::from_str("Amman, Jordan"))
    } else if str_eq(tz, "Asia/Beirut") {
        Some(String::from_str("Beirut, Lebanon"))
    } else if str_eq(tz, "Asia/Damascus") {
        Some(String::from_str("Damascus, Syria"))
    } else if str_eq(tz, "Asia/Jerusalem") {
        Some(String::from_str("Jerusalem, Israel"))
    } else if str_eq(tz, "Asia/Gaza") || str_eq(tz, "Asia/Hebron") {
        Some(String::from_str("Palestine"))
    } else if str_eq(tz, "Asia/Yerevan") {
        Some(String::from_str("Yerevan, Armenia"))
    } else if str_eq(tz, "Asia/Baku") {
        Some(String::from_str("Baku, Azerbaijan"))
    } else if str_eq(tz, "Asia/Tbilisi") {
        Some(String::from_str("Tbilisi, Georgia"))
    } else if str_eq(tz, "Asia/Ashgabat") {
        Some(String::from_str("Ashgabat, Turkmenistan"))
    } else if str_eq(tz, "Asia/Tashkent") {
        Some(String::from_str("Tashkent, Uzbekistan"))
    } else if str_eq(tz, "Asia/Dushanbe") {
        Some(String::from_str("Dushanbe, Tajikistan"))
    } else if str_eq(tz, "Asia/Bishkek") {
        Some(String::from_str("Bishkek, Kyrgyzstan"))
    } else if str_eq(tz, "Asia/Almaty") {
        Some(String::from_str("Almaty, Kazakhstan"))
    } else if str_eq(tz, "Asia/Colombo") {
        Some(String::from_str("Colombo, Sri Lanka"))
    } else if str_eq(tz, "Asia/Kathmandu") {
        Some(String::from_str("Kathmandu, Nepal"))
    } else if str_eq(tz, "Asia/Thimphu") {
        Some(String::from_str("Thimphu, Bhutan"))
    } else if str_eq(tz, "Asia/Male") {
        Some(String::from_str("Male, Maldives"))
    } else {
        None
    }
}

fn name_africa(tz: &str) -> (r: Option<String>)
    ensures
        r.deep_view() == spec_name_africa(tz@),
{
    if str_eq(tz, "Africa/Cairo") {
        Some(String::from_str("Cairo, Egypt"))
    } else if str_eq(tz, "Africa/Johannesburg") {
        Some(String::from_str("Johannesburg, South Africa"))
    } else if str_eq(tz, "Africa/Cape_Town") {
        Some(String::from_str("Cape Town, South Africa"))
    } else if str_eq(tz, "Africa/Lagos") {
        Some(String::from_str("Lagos, Nigeria"))
    } else if str_eq(tz, "Africa/Kinshasa") {
        Some(String::from_str("Kinshasa, DR Congo"))
    } else if str_eq(tz, "Africa/Nairobi") {
        Some(String::from_str("Nairobi, Kenya"))
    } else if str_eq(tz, "Africa/Addis_Ababa") {
        Some(String::from_str("Addis Ababa, Ethiopia"))
    } else if str_eq(tz, "Africa/Dar_es_Salaam") {
        Some(String::from_str("Dar es Salaam, Tanzania"))
    } else if str_eq(tz, "Africa/Khartoum") {
        Some(String::from_str("Khartoum, Sudan"))
    } else if str_eq(tz, "Africa/Algiers") {
        Some(String::from_str("Algiers, Algeria"))
    } else if str_eq(tz, "Africa/Casablanca") {
        Some(String::from_str("Casablanca, Morocco"))
    } else if str_eq(tz, "Africa/Tunis") {
        Some(String::from_str("Tunis, Tunisia"))
    } else if str_eq(tz, "Africa/Tripoli") {
        Some(String::from_str("Tripoli, Libya"))
    } else if str_eq(tz, "Africa/Accra") {
        Some(String::from_str("Accra, Ghana"))
    } else if str_eq(tz, "Africa/Dakar") {
        Some(String::from_str("Dakar, Senegal"))
    } else if str_eq(tz, "Africa/Abidjan") {
        Some(String::from_str("Abidjan, Ivory Coast"))
    } else if str_eq(tz, "Africa/Bamako") {
        Some(String::from_str("Bamako, Mali"))
    } else if str_eq(tz, "Africa/Ouagadougou") {
        Some(String::from_str("Ouagadougou, Burkina Faso"))
    } else if str_eq(tz, "Africa/Conakry") {
        Some(String::from_str("Conakry, Guinea"))
    } else if str_eq(tz, "Africa/Freetown") {
        Some(String::from_str("Freetown, Sierra Leone"))
    } else if str_eq(tz, "Africa/Monrovia") {
        Some(String::from_str("Monrovia, Liberia"))
    } else if str_eq(tz, "Africa/Lome") {
        Some(String::from_str("Lome, Togo"))
    } else if str_eq(tz, "Africa/Porto-Novo") {
        Some(String::from_str("Porto-Novo, Benin"))
    } else if str_eq(tz, "Africa/Niamey") {
        Some(String::from_str("Niamey, Niger"))
    } else if str_eq(tz, "Africa/Ndjamena") {
        Some(String::from_str("Ndjamena, Chad"))
    } else if str_eq(tz, "Africa/Bangui") {
        Some(String::from_str("Bangui, Central African Republic"))
    } else if str_eq(tz, "Africa/Brazzaville") {
        Some(String::from_str("Brazzaville, Republic of the Congo"))
    } else if str_eq(tz, "Africa/Luanda") {
        Some(String::from_str("Luanda, Angola"))
    } else if str_eq(tz, "Africa/Lusaka") {
        Some(String::from_str("Lusaka, Zambia"))
    } else if str_eq(tz, "Africa/Harare") {
        Some(String::from_str("Harare, Zimbabwe"))
    } else if str_eq(tz, "Africa/Maputo") {
        Some(String::from_str("Maputo, Mozambique"))
    } else if str_eq(tz, "Africa/Blantyre") {
        Some(String::from_str("Blantyre, Malawi"))
    } else if str_eq(tz, "Africa/Gaborone") {
        Some(String::from_str("Gaborone, Botswana"))
    } else if str_eq(tz, "Africa/Maseru") {
        Some(String::from_str("Maseru, Lesotho"))
    } else if str_eq(tz, "Africa/Mbabane") {
        Some(String::from_str("Mbabane, Eswatini"))
    } else if str_eq(tz, "Africa/Mogadishu") {
        Some(String::from_str("Mogadishu, Somalia"))
    } else if str_eq(tz, "Africa/Djibouti") {
        Some(String::from_str("Djibouti City, Djibouti"))
    } else if str_eq(tz, "Africa/Asmara") {
        Some(String::from_str("Asmara, Eritrea"))
    } else if str_eq(tz, "Africa/Bujumbura") {
        Some(String::from_str("Bujumbura, Burundi"))
    } else if str_eq(tz, "Africa/Kigali") {
        Some(String::from_str("Kigali, Rwanda"))
    } else if str_eq(tz, "Africa/Kampala") {
        Some(String::from_str("Kampala, Uganda"))
    } else if str_eq(tz, "Africa/Douala") {
        Some(String::from_str("Douala, Cameroon"))
    } else if str_eq(tz, "Africa/Libreville") {
        Some(String::from_str("Libreville, Gabon"))
    } else if str_eq(tz, "Africa/Malabo") {
        Some(String::from_str("Malabo, Equatorial Guinea"))
    } else if str_eq(tz, "Africa/Sao_Tome") {
        Some(String::from_str("Sao Tome, Sao Tome and Principe"))
    } else if str_eq(tz, "Africa/Windhoek") {
        Some(String::from_str("Windhoek, Namibia"))
    } else if str_eq(tz, "Africa/Port_Louis") {
        Some(String::from_str("Port Louis, Mauritius"))
    } else if str_eq(tz, "Africa/Victoria") {
        Some(String::from_str("Victoria, Seychelles"))
    } else if str_eq(tz, "Africa/Nouakchott") {
        Some(String::from_str("Nouakchott, Mauritania"))
    } else if str_eq(tz, "Africa/Banjul") {
        Some(String::from_str("Banjul, Gambia"))
    } else if str_eq(tz, "Africa/Guinea-Bissau") {
        Some(String::from_str("Bissau, Guinea-Bissau"))
    } else {
        None
    }
}

fn name_oceania(tz: &str) -> (r: Option<String>)
    ensures
        r.deep_view() == spec_name_oceania(tz@),
{
    if str_eq(tz, "Australia/Sydney") {
        Some(String::from_str("Sydney, Australia"))
    } else if str_eq(tz, "Australia/Melbourne") {
        Some(String::from_str("Melbourne, Australia"))
    } else if str_eq(tz, "Australia/Brisbane") {
        Some(String::from_str("Brisbane, Australia"))
    } else if str_eq(tz, "Australia/Perth") {
        Some(String::from_str("Perth, Australia"))
    } else if str_eq(tz, "Australia/Adelaide") {
        Some(String::from_str("Adelaide, Australia"))
    } else if str_eq(tz, "Australia/Hobart") {
        Some(String::from_str("Hobart, Australia"))
    } else if str_eq(tz, "Australia/Darwin") {
        Some(String::from_str("Darwin, Australia"))
    } else if str_eq(tz, "Australia/Canberra") {
        Some(String::from_str("Canberra, Australia"))
    } else if str_eq(tz, "Pacific/Auckland") {
        Some(String::from_str("Auckland, New Zealand"))
    } else if str_eq(tz, "Pacific/Wellington") {
        Some(String::from_str("Wellington, New Zealand"))
    } else if str_eq(tz, "Pacific/Fiji") {
        Some(String::from_str("Suva, Fiji"))
    } else if str_eq(tz, "Pacific/Port_Moresby") {
        Some(String::from_str("Port Moresby, Papua New Guinea"))
    } else if str_eq(tz, "Pacific/Guadalcanal") {
        Some(String::from_str("Honiara, Solomon Islands"))
    } else if str_eq(tz, "Pacific/Noumea") {
        Some(String::from_str("Noumea, New Caledonia"))
    } else if str_eq(tz, "Pacific/Tarawa") {
        Some(String::from_str("Tarawa, Kiribati"))
    } else if str_eq(tz, "Pacific/Majuro") {
        Some(String::from_str("Majuro, Marshall Islands"))
    } else if str_eq(tz, "Pacific/Palau") {
        Some(String::from_str("Ngerulmud, Palau"))
    } else if str_eq(tz, "Pacific/Chuuk") {
        Some(String::from_str("Chuuk, Micronesia"))
    } else if str_eq(tz, "Pacific/Guam") {
        Some(String::from_str("Hagatna, Guam"))
    } else if str_eq(tz, "Pacific/Saipan") {
        Some(String::from_str("Saipan, Northern Mariana Islands"))
    } else if str_eq(tz, "Pacific/Honolulu") {
        Some(String::from_str("Honolulu, Hawaii, USA"))
    } else if str_eq(tz, "Pacific/Tahiti") {
        Some(String::from_str("Papeete, French Polynesia"))
    } else if str_eq(tz, "Pacific/Rarotonga") {
        Some(String::from_str("Avarua, Cook Islands"))
    } else if str_eq(tz, "Pacific/Apia") {
        Some(String::from_str("Apia, Samoa"))
    } else if str_eq(tz, "Pacific/Niue") {
        Some(String::from_str("Alofi, Niue"))
    } else if str_eq(tz, "Pacific/Tongatapu") {
        Some(String::from_str("Nuku'alofa, Tonga"))
    } else if str_eq(tz, "Pacific/Funafuti") {
        Some(String::from_str("Funafuti, Tuvalu"))
    } else if str_eq(tz, "Pacific/Wake") {
        Some(String::from_str("Wake Island, USA"))
    } else if str_eq(tz, "Pacific/Easter") {
        Some(String::from_str("Easter Island, Chile"))
    } else {
        None
    }
}

fn name_antarctica(tz: &str) -> (r: Option<String>)
    ensures
        r.deep_view() == spec_name_antarctica(tz@),
{
    if str_eq(tz, "Antarctica/McMurdo") {
        Some(String::from_str("McMurdo Station, Antarctica"))
    } else if str_eq(tz, "Antarctica/Casey") {
        Some(String::from_str("Casey Station, Antarctica"))
    } else if str_eq(tz, "Antarctica/Davis") {
        Some(String::from_str("Davis Station, Antarctica"))
    } else if str_eq(tz, "Antarctica/Mawson") {
        Some(String::from_str("Mawson Station, Antarctica"))
    } else if str_eq(tz, "Antarctica/Palmer") {
        Some(String::from_str("Palmer Station, Antarctica"))
    } else if str_eq(tz, "Antarctica/Rothera") {
        Some(String::from_str("Rothera Station, Antarctica"))
    } else if str_eq(tz, "Antarctica/Syowa") {
        Some(String::from_str("Syowa Station, Antarctica"))
    } else if str_eq(tz, "Antarctica/Troll") {
        Some(String::from_str("Troll Station, Antarctica"))
    } else if str_eq(tz, "Antarctica/Vostok") {
        Some(String::from_str("Vostok Station, Antarctica"))
    } else {
        None
    }
}

fn name_region(tz: &str) -> (r: Option<String>)
    ensures
        r.deep_view() == spec_name_region(tz@),
{
    if str_has_prefix(tz, "Europe/") {
        Some(String::from_str("Europe"))
    } else if str_has_prefix(tz, "America/") {
        Some(String::from_str("Americas"))
    } else if str_has_prefix(tz, "Asia/") {
        Some(String::from_str("Asia"))
    } else if str_has_prefix(tz, "Africa/") {
        Some(String::from_str("Africa"))
    } else if str_has_prefix(tz, "Australia/") {
        Some(String::from_str("Australia"))
    } else if str_has_prefix(tz, "Pacific/") {
        Some(String::from_str("Pacific Islands"))
    } else if str_has_prefix(tz, "Atlantic/") {
        Some(String::from_str("Atlantic Region"))
    } else if str_has_prefix(tz, "Indian/") {
        Some(String::from_str("Indian Ocean Region"))
    } else if str_has_prefix(tz, "Antarctica/") {
        Some(String::from_str("Antarctica"))
    } else {
        None
    }
}

/// Maps a timezone to a human-readable location name.  Timezones
/// without an exact entry fall back to a region name derived from the
/// path prefix; anything else yields `None`.
pub fn timezone_to_location_name(timezone: &str) -> (r: Option<String>)
    ensures
        r.deep_view() == spec_location_name(timezone@),
{
    if let Some(v) = name_europe(timezone) {
        return Some(v);
    }
    if let Some(v) = name_north_america(timezone) {
        return Some(v);
    }
    if let Some(v) = name_south_america(timezone) {
        return Some(v);
    }
    if let Some(v) = name_asia(timezone) {
        return Some(v);
    }
    if let Some(v) = name_africa(timezone) {
        return Some(v);
    }
    if let Some(v) = name_oceania(timezone) {
        return Some(v);
    }
    if let Some(v) = name_antarctica(timezone) {
        return Some(v);
    }
    name_region(timezone)
}

/// The timezone name encoded in a zoneinfo path: what follows the
/// system zoneinfo directory prefix, or nothing for any other path.
pub fn timezone_from_zoneinfo_path<'a>(path: &'a str) -> (r: Option<&'a str>)
    ensures
        has_prefix(path@, "/usr/share/zoneinfo/"@) ==> (r matches Some(t) && t@ == path@.subrange(
            "/usr/share/zoneinfo/"@.len() as int,
            path@.len() as int,
        )),
        !has_prefix(path@, "/usr/share/zoneinfo/"@) ==> r is None,
{
    let prefix = "/usr/share/zoneinfo/";
    if str_has_prefix(path, prefix) {
        let plen = prefix.unicode_len();
        let slen = path.unicode_len();
        Some(path.substring_char(plen, slen))
    } else {
        None
    }
}

} // verus!
