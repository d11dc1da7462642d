//! The text of an announcement: country flags, countdown phrase, mention and
//! the fields shown for a race.
use vstd::prelude::*;

use crate::race::Race;

verus! {

/// Two-letter code of a country, by the name the schedule feed gives it.
pub open spec fn country_code_of(name: Seq<char>) -> Option<Seq<char>> {
    if name == "Afghanistan"@ { Some("af"@) }
    else if name == "Albania"@ { Some("al"@) }
    else if name == "Algeria"@ { Some("dz"@) }
    else if name == "Bahrain"@ { Some("bh"@) }
    else if name == "Saudi Arabia"@ { Some("sa"@) }
    else if name == "Australia"@ { Some("au"@) }
    else if name == "Japan"@ { Some("jp"@) }
    else if name == "China"@ { Some("cn"@) }
    else if name == "USA"@ { Some("us"@) }
    else if name == "Italy"@ { Some("it"@) }
    else if name == "Monaco"@ { Some("mc"@) }
    else if name == "Canada"@ { Some("ca"@) }
    else if name == "Spain"@ { Some("es"@) }
    else if name == "Austria"@ { Some("at"@) }
    else if name == "UK"@ { Some("gb"@) }
    else if name == "Hungary"@ { Some("hu"@) }
    else if name == "Belgium"@ { Some("be"@) }
    else if name == "Netherlands"@ { Some("nl"@) }
    else if name == "Azerbaijan"@ { Some("az"@) }
    else if name == "Singapore"@ { Some("sg"@) }
    else if name == "Mexico"@ { Some("mx"@) }
    else if name == "Brazil"@ { Some("br"@) }
    else if name == "United States"@ { Some("us"@) }
    else if name == "Qatar"@ { Some("qa"@) }
    else if name == "UAE"@ { Some("ae"@) }
    else { None }
}

/// The view of an optional text.
pub open spec fn opt_view(s: Option<String>) -> Option<Seq<char>> {
    match s {
        Some(t) => Some(t@),
        None => None,
    }
}

fn same_text(a: &str, b: &str) -> (r: bool)
    ensures
        r == (a@ == b@),
{
    String::from_str(a) == String::from_str(b)
}

/// Two-letter code of a country, used to pick its flag; `None` for a name
/// that the table does not hold.
pub fn get_country_code(country_name: &str) -> (r: Option<String>)
    ensures
        opt_view(r) == country_code_of(country_name@),
{
    if same_text(country_name, "Afghanistan") {
        Some(String::from_str("af"))
    } else if same_text(country_name, "Albania") {
        Some(String::from_str("al"))
    } else if same_text(country_name, "Algeria") {
        Some(String::from_str("dz"))
    } else if same_text(country_name, "Bahrain") {
        Some(String::from_str("bh"))
    } else if same_text(country_name, "Saudi Arabia") {
        Some(String::from_str("sa"))
    } else if same_text(country_name, "Australia") {
        Some(String::from_str("au"))
    } else if same_text(country_name, "Japan") {
        Some(String::from_str("jp"))
    } else if same_text(country_name, "China") {
        Some(String::from_str("cn"))
    } else if same_text(country_name, "USA") {
        Some(String::from_str("us"))
    } else if same_text(country_name, "Italy") {
        Some(String::from_str("it"))
    } else if same_text(country_name, "Monaco") {
        Some(String::from_str("mc"))
    } else if same_text(country_name, "Canada") {
        Some(String::from_str("ca"))
    } else if same_text(country_name, "Spain") {
        Some(String::from_str("es"))
    } else if same_text(country_name, "Austria") {
        Some(String::from_str("at"))
    } else if same_text(country_name, "UK") {
        Some(String::from_str("gb"))
    } else if same_text(country_name, "Hungary") {
        Some(String::from_str("hu"))
    } else if same_text(country_name, "Belgium") {
        Some(String::from_str("be"))
    } else if same_text(country_name, "Netherlands") {
        Some(String::from_str("nl"))
    } else if same_text(country_name, "Azerbaijan") {
        Some(String::from_str("az"))
    } else if same_text(country_name, "Singapore") {
        Some(String::from_str("sg"))
    } else if same_text(country_name, "Mexico") {
        Some(String::from_str("mx"))
    } else if same_text(country_name, "Brazil") {
        Some(String::from_str("br"))
    } else if same_text(country_name, "United States") {
        Some(String::from_str("us"))
    } else if same_text(country_name, "Qatar") {
        Some(String::from_str("qa"))
    } else if same_text(country_name, "UAE") {
        Some(String::from_str("ae"))
    } else {
        None
    }
}

/// Reply to a chat message that holds a command: `!ping` is answered with
/// `Pong!`; any other text gets no reply.
pub fn reply_to_command(content: &str) -> (r: Option<String>)
    ensures
        opt_view(r) == (if content@ == "!ping"@ {
            Some("Pong!"@)
        } else {
            None
        }),
{
    if same_text(content, "!ping") {
        Some(String::from_str("Pong!"))
    } else {
        None
    }
}

/// The character of the decimal digit `d`.
pub open spec fn digit_char(d: int) -> char {
    if d == 0 { '0' }
    else if d == 1 { '1' }
    else if d == 2 { '2' }
    else if d == 3 { '3' }
    else if d == 4 { '4' }
    else if d == 5 { '5' }
    else if d == 6 { '6' }
    else if d == 7 { '7' }
    else if d == 8 { '8' }
    else { '9' }
}

/// Decimal digits of `n`, most significant first, without leading zeros.
pub open spec fn nat_digits(n: nat) -> Seq<char>
    decreases n,
{
    if n < 10 {
        seq![digit_char(n as int)]
    } else {
        nat_digits(n / 10).push(digit_char((n % 10) as int))
    }
}

/// Decimal notation of `n`, with a leading `-` where it is negative.
pub open spec fn decimal_of(n: int) -> Seq<char> {
    if n < 0 {
        seq!['-'] + nat_digits((-n) as nat)
    } else {
        nat_digits(n as nat)
    }
}

/// Relies on std's `Display` for integers, through `ToString::to_string`:
/// decimal digits without leading zeros, and `-` before a negative value.
#[verifier::external_body]
fn decimal_text(n: i128) -> (r: String)
    ensures
        r@ == decimal_of(n as int),
{
    n.to_string()
}

/// Address of the flag image of the country with the given code.
pub open spec fn flag_url_of(code: Seq<char>) -> Seq<char> {
    "https://flagcdn.com/h120/"@ + code + ".png"@
}

/// Countdown phrase shown with an announcement.
pub open spec fn days_phrase_of(days: int) -> Seq<char> {
    decimal_of(days) + " dia(s)"@
}

/// Message text that mentions the role with the given identifier.
pub open spec fn mention_of(role: int) -> Seq<char> {
    "Oigan <@&"@ + decimal_of(role) + "> pendejos, ahi les aviso, que viene el FIUUUMMMMM!!!"@
}

/// Address of the flag image of the country with the given code.
pub fn flag_url(code: &str) -> (r: String)
    ensures
        r@ == flag_url_of(code@),
{
    String::from_str("https://flagcdn.com/h120/").concat(code).concat(".png")
}

/// Countdown phrase for `days` days left.
pub fn days_phrase(days: i64) -> (r: String)
    ensures
        r@ == days_phrase_of(days as int),
{
    decimal_text(days as i128).concat(" dia(s)")
}

/// Map link to the place at latitude `lat` and longitude `long`.
pub open spec fn maps_url_of(lat: Seq<char>, long: Seq<char>) -> Seq<char> {
    "https://www.google.com/maps/?q="@ + lat + ","@ + long
}

/// Map link to the place at latitude `lat` and longitude `long`, both given
/// as decimal text.
pub fn generate_google_maps_url(lat: &str, long: &str) -> (r: String)
    ensures
        r@ == maps_url_of(lat@, long@),
{
    String::from_str("https://www.google.com/maps/?q=").concat(lat).concat(",").concat(long)
}

/// Message text that mentions the role `role`.
pub fn mention(role: u64) -> (r: String)
    ensures
        r@ == mention_of(role as int),
{
    let id = decimal_text(role as i128);
    String::from_str("Oigan <@&").concat(id.as_str()).concat(
        "> pendejos, ahi les aviso, que viene el FIUUUMMMMM!!!",
    )
}

/// One labelled field of an announcement.
#[derive(Debug)]
pub struct EmbedField {
    pub name: String,
    pub value: String,
    pub inline: bool,
}

/// Everything an announcement shows: a text that mentions a role, and a card
/// with title, description, colour, fields and, where the country is known,
/// its flag.
#[derive(Debug)]
pub struct Announcement {
    pub content: String,
    pub title: String,
    pub description: String,
    pub color: u32,
    pub fields: Vec<EmbedField>,
    pub image: Option<String>,
}

/// Colour of the announcement card, as `0xRRGGBB`.
pub const CARD_COLOR: u32 = 0xff0000;

pub open spec fn field_is(f: EmbedField, name: Seq<char>, value: Seq<char>, inline: bool) -> bool {
    f.name@ == name && f.value@ == value && f.inline == inline
}

/// `a` announces `race` with `days` days left, mentioning `role`.
pub open spec fn announces(a: Announcement, race: Race, days: int, role: int) -> bool {
    &&& a.content@ == mention_of(role)
    &&& a.title@ == "\u{1f3ce}\u{1f3c1} Proxima carrera F1 \u{1f3ce}\u{1f3c1}"@
    &&& a.description@ == "\u{a1}Prep\u{e1}rate!, porque falta poco"@
    &&& a.color == CARD_COLOR
    &&& a.fields@.len() == 4
    &&& field_is(a.fields@[0], "Carrera"@, race.race_name@, true)
    &&& field_is(a.fields@[1], "Circuito"@, race.circuit.circuit_name@, true)
    &&& field_is(a.fields@[2], "Nombre del circuito"@, race.circuit.circuit_name@, false)
    &&& field_is(a.fields@[3], "D\u{ed}as restantes"@, days_phrase_of(days), true)
    &&& opt_view(a.image) == match country_code_of(race.circuit.location.country@) {
        Some(code) => Some(flag_url_of(code)),
        None => None,
    }
}

/// The announcement of `race` with `days_remaining` days left, mentioning the
/// role `role`. A country missing from the table leaves the card without a flag.
pub fn build_announcement(race: &Race, days_remaining: i64, role: u64) -> (a: Announcement)
    ensures
        announces(a, *race, days_remaining as int, role as int),
{
    let image = match get_country_code(race.circuit.location.country.as_str()) {
        Some(code) => Some(flag_url(code.as_str())),
        None => None,
    };
    let mut fields: Vec<EmbedField> = Vec::new();
    fields.push(
        EmbedField {
            name: String::from_str("Carrera"),
            value: race.race_name.clone(),
            inline: true,
        },
    );
    fields.push(
        EmbedField {
            name: String::from_str("Circuito"),
            value: race.circuit.circuit_name.clone(),
            inline: true,
        },
    );
    fields.push(
        EmbedField {
            name: String::from_str("Nombre del circuito"),
            value: race.circuit.circuit_name.clone(),
            inline: false,
        },
    );
    fields.push(
        EmbedField {
            name: String::from_str("D\u{ed}as restantes"),
            value: days_phrase(days_remaining),
            inline: true,
        },
    );
    Announcement {
        content: mention(role),
        title: String::from_str("\u{1f3ce}\u{1f3c1} Proxima carrera F1 \u{1f3ce}\u{1f3c1}"),
        description: String::from_str("\u{a1}Prep\u{e1}rate!, porque falta poco"),
        color: CARD_COLOR,
        fields,
        image,
    }
}

} // verus!
