//! Display labels: track variables rendered through a template.

use vstd::prelude::*;
use vstd::string::*;

use crate::track::TrackMetadata;

verus! {

/// What strfmt renders from a template and name/value bindings, or `None`
/// where it refuses the template.
pub uninterp spec fn rendered(template: Seq<char>, vars: Seq<(Seq<char>, Seq<char>)>) -> Option<Seq<char>>;

/// strfmt's error type, carried through without looking inside.
#[verifier::external_type_specification]
#[verifier::external_body]
pub struct ExFmtError(strfmt::FmtError);

/// Relies on strfmt::strfmt: it substitutes each `{name}` of the template by
/// the value bound to `name`, and fails on a malformed template or a name
/// without a binding; the outcome depends on the template and the bindings
/// alone.
#[verifier::external_body]
fn strfmt_render(template: &str, vars: &Vec<(String, String)>) -> (r: Result<String, strfmt::FmtError>)
    ensures
        match rendered(template@, pairs_view(vars@)) {
            Some(s) => r is Ok && r->Ok_0@ == s,
            None => r is Err,
        },
{
    let map: std::collections::HashMap<String, String> = vars.iter().cloned().collect();
    strfmt::strfmt(template, &map)
}

/// The template used when none is configured, or when the configured one
/// cannot be rendered.
pub open spec fn default_template() -> Seq<char> {
    "{artist} - {title}"@
}

pub fn default_template_text() -> (r: &'static str)
    ensures
        r@ == default_template(),
{
    "{artist} - {title}"
}

#[derive(Clone, Copy, Debug, PartialEq, Eq, Structural)]
pub enum LabelError {
    /// The template is malformed or names an unknown variable.
    FormatError,
}

pub open spec fn pairs_view(v: Seq<(String, String)>) -> Seq<(Seq<char>, Seq<char>)> {
    v.map_values(|p: (String, String)| (p.0@, p.1@))
}

pub open spec fn digit_char(d: nat) -> char {
    if d == 0 { '0' } else if d == 1 { '1' } else if d == 2 { '2' } else if d == 3 { '3' }
    else if d == 4 { '4' } else if d == 5 { '5' } else if d == 6 { '6' } else if d == 7 { '7' }
    else if d == 8 { '8' } else { '9' }
}

/// The decimal digits of `n`, most significant first, without leading zeros.
pub open spec fn digits(n: nat) -> Seq<char>
    decreases n,
{
    if n < 10 {
        seq![digit_char(n)]
    } else {
        digits(n / 10).push(digit_char(n % 10))
    }
}

/// The decimal text of `n`, with a leading `-` when negative.
pub open spec fn decimal(n: int) -> Seq<char> {
    if n < 0 { seq!['-'] + digits((-n) as nat) } else { digits(n as nat) }
}

fn digit_text(d: u32) -> (r: &'static str)
    requires
        d < 10,
    ensures
        r@ == seq![digit_char(d as nat)],
{
    proof {
        reveal_strlit("0");
        reveal_strlit("1");
        reveal_strlit("2");
        reveal_strlit("3");
        reveal_strlit("4");
        reveal_strlit("5");
        reveal_strlit("6");
        reveal_strlit("7");
        reveal_strlit("8");
        reveal_strlit("9");
    }
    let r = if d == 0 { "0" } else if d == 1 { "1" } else if d == 2 { "2" } else if d == 3 { "3" }
        else if d == 4 { "4" } else if d == 5 { "5" } else if d == 6 { "6" } else if d == 7 { "7" }
        else if d == 8 { "8" } else { "9" };
    assert(r@ =~= seq![digit_char(d as nat)]);
    r
}

fn push_digits(out: &mut String, n: u32)
    ensures
        final(out)@ == old(out)@ + digits(n as nat),
    decreases n,
{
    if n >= 10 {
        push_digits(out, n / 10);
    }
    out.append(digit_text(n % 10));
    proof {
        if n >= 10 {
            assert(final(out)@ =~= old(out)@ + digits(n as nat));
        } else {
            assert(final(out)@ =~= old(out)@ + digits(n as nat));
        }
    }
}

/// The decimal text of an integer.
pub fn decimal_text(n: i32) -> (r: String)
    ensures
        r@ == decimal(n as int),
{
    let mut out = String::new();
    if n < 0 {
        proof { reveal_strlit("-"); }
        out.append("-");
        let magnitude: u32 = (-(n as i64)) as u32;
        push_digits(&mut out, magnitude);
        assert(out@ =~= decimal(n as int));
    } else {
        push_digits(&mut out, n as u32);
        assert(out@ =~= decimal(n as int));
    }
    out
}

pub open spec fn opt_view(o: Option<String>) -> Option<Seq<char>> {
    match o {
        Some(s) => Some(s@),
        None => None,
    }
}

pub open spec fn text_or_empty(o: Option<String>) -> Seq<char> {
    match o {
        Some(s) => s@,
        None => Seq::empty(),
    }
}

pub open spec fn number_or_empty(o: Option<i32>) -> Seq<char> {
    match o {
        Some(n) => decimal(n as int),
        None => Seq::empty(),
    }
}

/// The variables a label template can use, bound to the track's fields;
/// an absent field is bound to the empty text.
pub open spec fn label_vars(m: TrackMetadata) -> Seq<(Seq<char>, Seq<char>)> {
    seq![
        ("artist"@, text_or_empty(m.artist)),
        ("albumArtist"@, text_or_empty(m.album_artist)),
        ("title"@, text_or_empty(m.title)),
        ("album"@, text_or_empty(m.album)),
        ("trackNumber"@, number_or_empty(m.track_number)),
        ("discNumber"@, number_or_empty(m.disc_number)),
        ("autoRating"@, text_or_empty(m.auto_rating)),
    ]
}

/// The label for `m`: the configured template (else the default one)
/// rendered with the track's variables; where that fails, the default
/// template rendered with the same variables.
pub open spec fn label_text(fmt: Option<Seq<char>>, m: TrackMetadata) -> Option<Seq<char>> {
    let template = match fmt {
        Some(t) => t,
        None => default_template(),
    };
    match rendered(template, label_vars(m)) {
        Some(s) => Some(s),
        None => rendered(default_template(), label_vars(m)),
    }
}

fn owned_or_empty(o: &Option<String>) -> (r: String)
    ensures
        r@ == text_or_empty(*o),
{
    match o {
        Some(s) => s.clone(),
        None => String::new(),
    }
}

fn number_text_or_empty(o: Option<i32>) -> (r: String)
    ensures
        r@ == number_or_empty(o),
{
    match o {
        Some(n) => decimal_text(n),
        None => String::new(),
    }
}

/// The template variables of a track, in the order of `label_vars`.
pub fn label_vars_of(m: &TrackMetadata) -> (r: Vec<(String, String)>)
    ensures
        pairs_view(r@) == label_vars(*m),
{
    let mut r: Vec<(String, String)> = Vec::new();
    r.push((String::from_str("artist"), owned_or_empty(&m.artist)));
    r.push((String::from_str("albumArtist"), owned_or_empty(&m.album_artist)));
    r.push((String::from_str("title"), owned_or_empty(&m.title)));
    r.push((String::from_str("album"), owned_or_empty(&m.album)));
    r.push((String::from_str("trackNumber"), number_text_or_empty(m.track_number)));
    r.push((String::from_str("discNumber"), number_text_or_empty(m.disc_number)));
    r.push((String::from_str("autoRating"), owned_or_empty(&m.auto_rating)));
    assert(pairs_view(r@) =~= label_vars(*m));
    r
}

/// Renders `template` with `vars`.
pub fn render_label(template: &str, vars: &Vec<(String, String)>) -> (r: Result<String, LabelError>)
    ensures
        match rendered(template@, pairs_view(vars@)) {
            Some(s) => r is Ok && r->Ok_0@ == s,
            None => r == Err::<String, LabelError>(LabelError::FormatError),
        },
{
    match strfmt_render(template, vars) {
        Ok(s) => Ok(s),
        Err(_) => Err(LabelError::FormatError),
    }
}

/// Keeps a rendering that succeeded; after a failure, renders the default
/// template with the same variables, and gives no label if that fails too.
pub fn label_or_default(first: Result<String, LabelError>, vars: &Vec<(String, String)>) -> (r: Option<String>)
    ensures
        match first {
            Ok(s) => r == Some(s),
            Err(_) => opt_view(r) == rendered(default_template(), pairs_view(vars@)),
        },
{
    match first {
        Ok(s) => Some(s),
        Err(_) => match render_label(default_template_text(), vars) {
            Ok(s) => Some(s),
            Err(_) => None,
        },
    }
}

/// The label for a track, under the configured template if any.
pub fn format_label(fmt: &Option<String>, m: &TrackMetadata) -> (r: Option<String>)
    ensures
        opt_view(r) == label_text(opt_view(*fmt), *m),
{
    let vars = label_vars_of(m);
    let first = match fmt {
        Some(t) => render_label(t.as_str(), &vars),
        None => render_label(default_template_text(), &vars),
    };
    label_or_default(first, &vars)
}

/// A template that cannot be rendered for a track (an unknown variable, a
/// malformed brace) gives the label that the default template gives.
pub proof fn failed_template_falls_back(template: Seq<char>, m: TrackMetadata)
    requires
        rendered(template, label_vars(m)) is None,
    ensures
        label_text(Some(template), m) == rendered(default_template(), label_vars(m)),
{
}

} // verus!
