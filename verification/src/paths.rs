use vstd::prelude::*;

use crate::img_io::{ImageSourceFormat, is_tiff, spec_is_tiff};

verus! {

// Path syntax is that of the platform the library is built for; the names
// below stand for the results on that platform.

/// What `std::path::Path::parent` gives for a path, as text.
pub uninterp spec fn spec_path_parent(path: Seq<char>) -> Option<Seq<char>>;

/// What `std::path::Path::file_stem` gives for a path, as text.
pub uninterp spec fn spec_path_file_stem(path: Seq<char>) -> Option<Seq<char>>;

/// What `std::path::Path::join` gives for a base path and a name, as text.
pub uninterp spec fn spec_path_join(base: Seq<char>, name: Seq<char>) -> Seq<char>;

/// What `std::path::PathBuf::set_extension` leaves in a path, as text.
pub uninterp spec fn spec_path_set_extension(path: Seq<char>, extension: Seq<char>) -> Seq<char>;

/// Calls `std::path::Path::parent`. Claims only that the result, as text, is
/// the one named by `spec_path_parent` for the path's text; the parent of a
/// UTF-8 path is a part of it, so it converts to text without loss.
#[verifier::external_body]
fn path_parent(path: &str) -> (r: Option<String>)
    ensures
        r.deep_view() == spec_path_parent(path@),
{
    match std::path::Path::new(path).parent() {
        Some(p) => Some(p.to_string_lossy().into_owned()),
        None => None,
    }
}

/// Calls `std::path::Path::file_stem` and takes the stem as text. Claims only
/// that the result is the one named by `spec_path_file_stem`.
#[verifier::external_body]
fn path_file_stem(path: &str) -> (r: Option<String>)
    ensures
        r.deep_view() == spec_path_file_stem(path@),
{
    match std::path::Path::new(path).file_stem() {
        Some(s) => s.to_str().map(String::from),
        None => None,
    }
}

/// Calls `std::path::Path::join`. Claims only that the result is the one
/// named by `spec_path_join`; joining two UTF-8 paths gives a UTF-8 path.
#[verifier::external_body]
fn path_join(base: &str, name: &str) -> (r: String)
    ensures
        r@ == spec_path_join(base@, name@),
{
    std::path::Path::new(base).join(name).to_string_lossy().into_owned()
}

/// Calls `std::path::PathBuf::set_extension`, which panics on an extension
/// holding a path separator, hence the `requires`. Claims only that the
/// result is the one named by `spec_path_set_extension`.
#[verifier::external_body]
fn path_set_extension(path: &str, extension: &str) -> (r: String)
    requires
        !extension@.contains('/'),
        !extension@.contains('\\'),
    ensures
        r@ == spec_path_set_extension(path@, extension@),
{
    let mut p = std::path::PathBuf::from(path);
    p.set_extension(extension);
    p.to_string_lossy().into_owned()
}

/// Calls `String::push`: the character is appended.
#[verifier::external_body]
fn string_push(s: &mut String, c: char)
    ensures
        final(s)@ == old(s)@.push(c),
{
    s.push(c);
}

/// The character of a decimal digit.
pub open spec fn digit_char(d: nat) -> char {
    (d + 48) as char
}

/// The decimal notation of `n`, without leading zeros.
pub open spec fn decimal(n: nat) -> Seq<char>
    decreases n,
{
    if n < 10 {
        seq![digit_char(n)]
    } else {
        decimal(n / 10).push(digit_char(n % 10))
    }
}

fn digit(d: u8) -> (c: char)
    requires
        d < 10,
    ensures
        c == digit_char(d as nat),
{
    (d + 48) as char
}

/// Appends the decimal notation of `n`.
fn push_decimal(s: &mut String, n: u8)
    ensures
        final(s)@ == old(s)@ + decimal(n as nat),
{
    if n >= 100 {
        string_push(s, digit(n / 100));
        string_push(s, digit((n / 10) % 10));
        string_push(s, digit(n % 10));
        assert(decimal((n / 10) as nat) == decimal((n / 100) as nat).push(digit_char(((n / 10) % 10) as nat)));
        assert(decimal((n / 100) as nat) == seq![digit_char((n / 100) as nat)]);
    } else if n >= 10 {
        string_push(s, digit(n / 10));
        string_push(s, digit(n % 10));
        assert(decimal((n / 10) as nat) == seq![digit_char((n / 10) as nat)]);
    } else {
        string_push(s, digit(n));
    }
    assert(final(s)@ =~= old(s)@ + decimal(n as nat));
}

pub open spec fn spec_sharpen_suffix(sharpen: Option<u8>) -> Seq<char> {
    match sharpen {
        Some(s) => "_sharpen-"@ + decimal(s as nat),
        None => Seq::empty(),
    }
}

pub open spec fn spec_experimental_suffix(experimental: bool) -> Seq<char> {
    if experimental {
        "_experimental"@
    } else {
        Seq::empty()
    }
}

/// `{stem}_denoised_strength-{strength}{_experimental}{_sharpen-N}.png`.
pub open spec fn spec_output_file_name(stem: Seq<char>, strength: u8, sharpen: Option<u8>, experimental: bool) -> Seq<char> {
    stem + "_denoised_strength-"@ + decimal(strength as nat) + spec_experimental_suffix(experimental)
        + spec_sharpen_suffix(sharpen) + ".png"@
}

/// The parent directory, or `.` when the path has none.
pub open spec fn parent_or_dot(parent: Option<Seq<char>>) -> Seq<char> {
    match parent {
        Some(p) => p,
        None => "."@,
    }
}

/// The file stem, or `image` when the path has none.
pub open spec fn stem_or_image(stem: Option<Seq<char>>) -> Seq<char> {
    match stem {
        Some(s) => s,
        None => "image"@,
    }
}

pub open spec fn spec_default_output_path(input: Seq<char>, strength: u8, sharpen: Option<u8>, experimental: bool) -> Seq<char> {
    spec_path_join(
        parent_or_dot(spec_path_parent(input)),
        spec_output_file_name(stem_or_image(spec_path_file_stem(input)), strength, sharpen, experimental),
    )
}

pub open spec fn spec_choose_output_path(
    input: Seq<char>,
    user_output: Option<Seq<char>>,
    strength: u8,
    sharpen: Option<u8>,
    experimental: bool,
    format: ImageSourceFormat,
) -> Seq<char> {
    let base = match user_output {
        Some(o) => o,
        None => spec_default_output_path(input, strength, sharpen, experimental),
    };
    if spec_is_tiff(format) {
        spec_path_set_extension(base, "tiff"@)
    } else {
        base
    }
}

/// The file name of an automatically named output: the stem, the denoise
/// strength, a mark for the experimental denoiser and the sharpening strength
/// when there was sharpening.
pub fn output_file_name(stem: &str, strength: u8, sharpen: Option<u8>, experimental: bool) -> (r: String)
    ensures
        r@ == spec_output_file_name(stem@, strength, sharpen, experimental),
{
    let mut name = String::from_str(stem);
    name.append("_denoised_strength-");
    push_decimal(&mut name, strength);
    if experimental {
        name.append("_experimental");
    }
    match sharpen {
        Some(s) => {
            name.append("_sharpen-");
            push_decimal(&mut name, s);
        },
        None => {},
    }
    name.append(".png");
    assert(name@ =~= spec_output_file_name(stem@, strength, sharpen, experimental));
    name
}

/// The output path used when none was given: next to the input, named after
/// its stem and the processing settings, as PNG.
pub fn default_output_path(input: &str, strength: u8, sharpen: Option<u8>, experimental: bool) -> (r: String)
    ensures
        r@ == spec_default_output_path(input@, strength, sharpen, experimental),
{
    let parent = match path_parent(input) {
        Some(p) => p,
        None => String::from_str("."),
    };
    let stem = match path_file_stem(input) {
        Some(s) => s,
        None => String::from_str("image"),
    };
    let name = output_file_name(stem.as_str(), strength, sharpen, experimental);
    path_join(parent.as_str(), name.as_str())
}

/// The path the result is written to: the user's path, or the default one,
/// with the extension `tiff` when the source is TIFF.
pub fn choose_output_path(
    input: &str,
    user_output: Option<&String>,
    strength: u8,
    sharpen: Option<u8>,
    experimental: bool,
    format: &ImageSourceFormat,
) -> (r: String)
    ensures
        r@ == spec_choose_output_path(
            input@,
            match user_output {
                Some(o) => Some(o@),
                None => None,
            },
            strength,
            sharpen,
            experimental,
            *format,
        ),
{
    let base = match user_output {
        Some(o) => o.clone(),
        None => default_output_path(input, strength, sharpen, experimental),
    };
    if is_tiff(format) {
        let ext = "tiff";
        proof {
            reveal_strlit("tiff");
        }
        path_set_extension(base.as_str(), ext)
    } else {
        base
    }
}

/// A character that is a decimal digit.
pub open spec fn is_digit_char(c: char) -> bool {
    exists|d: nat| d < 10 && c == digit_char(d)
}

proof fn lemma_decimal_facts(n: nat)
    ensures
        decimal(n).len() >= 1,
        forall|i: int| 0 <= i < decimal(n).len() ==> is_digit_char(#[trigger] decimal(n)[i]),
    decreases n,
{
    if n < 10 {
        assert(decimal(n)[0] == digit_char(n));
    } else {
        lemma_decimal_facts(n / 10);
        let p = decimal(n / 10);
        assert forall|i: int| 0 <= i < decimal(n).len() implies is_digit_char(#[trigger] decimal(n)[i]) by {
            if i < p.len() {
                assert(decimal(n)[i] == p[i]);
            } else {
                assert(decimal(n)[i] == digit_char(n % 10));
            }
        }
    }
}

proof fn lemma_digit_char_injective(a: nat, b: nat)
    requires
        a < 10,
        b < 10,
        digit_char(a) == digit_char(b),
    ensures
        a == b,
{
}

/// Distinct numbers have distinct decimal notations.
proof fn lemma_decimal_injective(a: nat, b: nat)
    requires
        decimal(a) == decimal(b),
    ensures
        a == b,
    decreases a,
{
    if a < 10 && b < 10 {
        assert(decimal(a)[0] == digit_char(a));
        assert(decimal(b)[0] == digit_char(b));
        lemma_digit_char_injective(a, b);
    } else if a < 10 {
        lemma_decimal_facts(b / 10);
        assert(decimal(b).len() >= 2);
    } else if b < 10 {
        lemma_decimal_facts(a / 10);
        assert(decimal(a).len() >= 2);
    } else {
        let pa = decimal(a / 10);
        let pb = decimal(b / 10);
        assert(decimal(a) == pa.push(digit_char(a % 10)));
        assert(decimal(b) == pb.push(digit_char(b % 10)));
        assert(decimal(a).last() == digit_char(a % 10));
        assert(decimal(b).last() == digit_char(b % 10));
        lemma_digit_char_injective(a % 10, b % 10);
        assert(pa =~= decimal(a).drop_last());
        assert(pb =~= decimal(b).drop_last());
        lemma_decimal_injective(a / 10, b / 10);
    }
}

/// A number's notation followed by text that starts with a non-digit can be
/// split back into the two in only one way.
proof fn lemma_decimal_prefix_split(a: nat, b: nat, t1: Seq<char>, t2: Seq<char>)
    requires
        decimal(a) + t1 == decimal(b) + t2,
        t1.len() > 0,
        t2.len() > 0,
        !is_digit_char(t1[0]),
        !is_digit_char(t2[0]),
    ensures
        a == b,
        t1 == t2,
{
    lemma_decimal_facts(a);
    lemma_decimal_facts(b);
    let da = decimal(a);
    let db = decimal(b);
    let whole = da + t1;
    if da.len() < db.len() {
        assert(whole[da.len() as int] == t1[0]);
        assert((db + t2)[da.len() as int] == db[da.len() as int]);
        assert(is_digit_char(db[da.len() as int]));
    } else if db.len() < da.len() {
        assert((db + t2)[db.len() as int] == t2[0]);
        assert(whole[db.len() as int] == da[db.len() as int]);
        assert(is_digit_char(da[db.len() as int]));
    } else {
        assert(da =~= whole.take(da.len() as int));
        assert(db =~= (db + t2).take(db.len() as int));
        assert(t1 =~= whole.skip(da.len() as int));
        assert(t2 =~= (db + t2).skip(db.len() as int));
        lemma_decimal_injective(a, b);
    }
}

/// What follows the strength in an automatic name.
spec fn name_tail(sharpen: Option<u8>, experimental: bool) -> Seq<char> {
    spec_experimental_suffix(experimental) + spec_sharpen_suffix(sharpen) + ".png"@
}

proof fn lemma_name_tail_starts_with_non_digit(sharpen: Option<u8>, experimental: bool)
    ensures
        name_tail(sharpen, experimental).len() > 0,
        !is_digit_char(name_tail(sharpen, experimental)[0]),
{
    reveal_strlit("_experimental");
    reveal_strlit("_sharpen-");
    reveal_strlit(".png");
    assert(!is_digit_char('_')) by {
        if is_digit_char('_') {
            let d = choose|d: nat| d < 10 && '_' == digit_char(d);
        }
    }
    assert(!is_digit_char('.')) by {
        if is_digit_char('.') {
            let d = choose|d: nat| d < 10 && '.' == digit_char(d);
        }
    }
    let t = name_tail(sharpen, experimental);
    if experimental {
        assert(t[0] == '_');
    } else if sharpen is Some {
        assert(t[0] == '_');
    } else {
        assert(t =~= ".png"@);
        assert(t[0] == '.');
    }
}

proof fn lemma_name_tail_injective(sharpen1: Option<u8>, experimental1: bool, sharpen2: Option<u8>, experimental2: bool)
    requires
        name_tail(sharpen1, experimental1) == name_tail(sharpen2, experimental2),
    ensures
        sharpen1 == sharpen2,
        experimental1 == experimental2,
{
    reveal_strlit("_experimental");
    reveal_strlit("_sharpen-");
    reveal_strlit(".png");
    let e1 = spec_experimental_suffix(experimental1);
    let e2 = spec_experimental_suffix(experimental2);
    let s1 = spec_sharpen_suffix(sharpen1);
    let s2 = spec_sharpen_suffix(sharpen2);
    let t1 = name_tail(sharpen1, experimental1);
    let t2 = name_tail(sharpen2, experimental2);
    let r1 = e1 + s1;
    let r2 = e2 + s2;
    assert(r1 =~= t1.take(t1.len() - 4));
    assert(r2 =~= t2.take(t2.len() - 4));
    if experimental1 != experimental2 {
        if experimental1 {
            if sharpen2 is Some {
                assert(r1[1] == 'e');
                assert(r2[1] == 's');
            } else {
                assert(r2.len() == 0);
            }
        } else {
            if sharpen1 is Some {
                assert(r2[1] == 'e');
                assert(r1[1] == 's');
            } else {
                assert(r1.len() == 0);
            }
        }
    }
    assert(s1 =~= r1.skip(e1.len() as int));
    assert(s2 =~= r2.skip(e2.len() as int));
    match (sharpen1, sharpen2) {
        (Some(a), Some(b)) => {
            assert(decimal(a as nat) =~= s1.skip(9));
            assert(decimal(b as nat) =~= s2.skip(9));
            lemma_decimal_injective(a as nat, b as nat);
        },
        (Some(a), None) => {
            assert(s1.len() > 0);
        },
        (None, Some(b)) => {
            assert(s2.len() > 0);
        },
        (None, None) => {},
    }
}

/// An automatic name is a fixed head, the strength, and the tail.
proof fn lemma_name_shape(stem: Seq<char>, strength: u8, sharpen: Option<u8>, experimental: bool)
    ensures
        spec_output_file_name(stem, strength, sharpen, experimental).skip(
            (stem + "_denoised_strength-"@).len() as int,
        ) == decimal(strength as nat) + name_tail(sharpen, experimental),
{
    let head = stem + "_denoised_strength-"@;
    let n = spec_output_file_name(stem, strength, sharpen, experimental);
    assert(n =~= head + (decimal(strength as nat) + name_tail(sharpen, experimental)));
    assert(n.skip(head.len() as int) =~= decimal(strength as nat) + name_tail(sharpen, experimental));
}

/// Automatic output names never collide: for one input stem, two runs with
/// different denoise strengths, sharpening or denoiser choice get different
/// file names.
pub proof fn lemma_output_file_name_injective(
    stem: Seq<char>,
    strength1: u8,
    sharpen1: Option<u8>,
    experimental1: bool,
    strength2: u8,
    sharpen2: Option<u8>,
    experimental2: bool,
)
    requires
        spec_output_file_name(stem, strength1, sharpen1, experimental1) == spec_output_file_name(
            stem,
            strength2,
            sharpen2,
            experimental2,
        ),
    ensures
        strength1 == strength2,
        sharpen1 == sharpen2,
        experimental1 == experimental2,
{
    let t1 = name_tail(sharpen1, experimental1);
    let t2 = name_tail(sharpen2, experimental2);
    lemma_name_shape(stem, strength1, sharpen1, experimental1);
    lemma_name_shape(stem, strength2, sharpen2, experimental2);
    lemma_name_tail_starts_with_non_digit(sharpen1, experimental1);
    lemma_name_tail_starts_with_non_digit(sharpen2, experimental2);
    lemma_decimal_prefix_split(strength1 as nat, strength2 as nat, t1, t2);
    lemma_name_tail_injective(sharpen1, experimental1, sharpen2, experimental2);
}

} // verus!
