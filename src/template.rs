//! The template engine: fixed subject and body templates filled by literal
//! placeholder substitution, in a fixed order and without escaping.
use vstd::prelude::*;
use crate::text::{
    brace_free, contains, lemma_fill_own, lemma_keep_other, lemma_replace_inserts,
    lemma_skip_plain, no_open_brace, occurs_at, replace_all, replace_spec, slot, string_of,
};

verus! {

/// The caller's flat record of what one notification carries.
pub struct Args {
    pub email_from: String,
    pub email_to: String,
    pub bcc: Option<String>,
    pub provider: String,
    pub name: String,
    pub data_amount: String,
    pub time_period: String,
    pub location: String,
}

/// The subject template.
pub const SUBJECT_TEMPLATE: &'static str = "[{{provider}}] {{location}} eSIM";

/// A piece of a template: `(true, key)` is the placeholder of `key`,
/// `(false, text)` is literal text.
pub open spec fn piece(seg: (bool, Seq<char>)) -> Seq<char> {
    if seg.0 {
        slot(seg.1)
    } else {
        seg.1
    }
}

/// The text of a template given as pieces.
pub open spec fn flatten(segs: Seq<(bool, Seq<char>)>) -> Seq<char>
    decreases segs.len(),
{
    if segs.len() == 0 {
        Seq::empty()
    } else {
        piece(segs[0]) + flatten(segs.subrange(1, segs.len() as int))
    }
}

/// Literal text holds no opening brace and every key is a non-empty word
/// without braces.
pub open spec fn segments_wf(segs: Seq<(bool, Seq<char>)>) -> bool {
    forall|i: int|
        0 <= i < segs.len() ==> if (#[trigger] segs[i]).0 {
            brace_free(segs[i].1) && segs[i].1.len() > 0
        } else {
            no_open_brace(segs[i].1)
        }
}

/// The pieces with each placeholder of `key` turned into the text `value`.
pub open spec fn fill(segs: Seq<(bool, Seq<char>)>, key: Seq<char>, value: Seq<char>) -> Seq<
    (bool, Seq<char>),
> {
    Seq::new(
        segs.len(),
        |i: int|
            if segs[i].0 && segs[i].1 == key {
                (false, value)
            } else {
                segs[i]
            },
    )
}

/// The pieces of the HTML body template.
pub open spec fn body_segments() -> Seq<(bool, Seq<char>)> {
    seq![
        (false, BODY_HEAD@),
        (true, "name"@),
        (false, ",</p>\n<p>Your "@),
        (true, "provider"@),
        (false, " eSIM for "@),
        (true, "location"@),
        (false, " is ready.</p>\n<p>Plan: "@),
        (true, "data_amount"@),
        (false, " valid for "@),
        (true, "time_period"@),
        (false, BODY_SCAN@),
        (true, "QR_CID"@),
        (false, BODY_TAIL@),
    ]
}

/// The opening of the HTML body template, up to the greeting.
pub const BODY_HEAD: &'static str = "<!DOCTYPE html>\n<html>\n<head>\n<meta charset=\"utf-8\">\n<title>eSIM</title>\n</head>\n<body style=\"font-family: Arial, sans-serif; color: #222222;\">\n<p>Hello ";

/// The lines of the HTML body template that lead to the image reference.
pub const BODY_SCAN: &'static str = ".</p>\n<p>Scan the QR code below with your phone to install it:</p>\n<p><img src=\"cid:";

/// The close of the HTML body template.
pub const BODY_TAIL: &'static str = "\" alt=\"eSIM QR code\" width=\"300\" height=\"300\"></p>\n</body>\n</html>\n";

/// The decimal character of a digit below ten.
pub open spec fn digit_char(d: nat) -> char {
    "0123456789"@[d as int]
}

/// The decimal representation of `n`, without sign or leading zeros.
pub open spec fn decimal(n: nat) -> Seq<char>
    decreases n,
{
    if n < 10 {
        seq![digit_char(n)]
    } else {
        decimal(n / 10).push(digit_char(n % 10))
    }
}

/// The subject: provider then location substituted, then `" - "` and the
/// count in decimal appended.
pub open spec fn subject_spec(
    template: Seq<char>,
    provider: Seq<char>,
    location: Seq<char>,
    count: nat,
) -> Seq<char> {
    replace_spec(
        replace_spec(template, "{{provider}}"@, provider),
        "{{location}}"@,
        location,
    ) + " - "@ + decimal(count)
}

/// The body: provider, name, data amount, time period and location
/// substituted in that order.
pub open spec fn body_spec(
    template: Seq<char>,
    provider: Seq<char>,
    name: Seq<char>,
    data_amount: Seq<char>,
    time_period: Seq<char>,
    location: Seq<char>,
) -> Seq<char> {
    replace_spec(
        replace_spec(
            replace_spec(
                replace_spec(
                    replace_spec(template, "{{provider}}"@, provider),
                    "{{name}}"@,
                    name,
                ),
                "{{data_amount}}"@,
                data_amount,
            ),
            "{{time_period}}"@,
            time_period,
        ),
        "{{location}}"@,
        location,
    )
}

/// Appends the decimal representation of `n` to `out`.
fn push_decimal(n: usize, out: &mut Vec<char>)
    ensures
        final(out)@ == old(out)@ + decimal(n as nat),
    decreases n,
{
    proof {
        reveal_strlit("0123456789");
    }
    if n >= 10 {
        push_decimal(n / 10, out);
    }
    let d = "0123456789".get_char(n % 10);
    out.push(d);
    proof {
        if n >= 10 {
            assert(decimal(n as nat) == decimal((n / 10) as nat).push(digit_char((n % 10) as nat)));
        } else {
            assert(decimal(n as nat) == seq![digit_char(n as nat)]);
        }
    }
}

/// The decimal representation of `n`.
pub fn decimal_string(n: usize) -> (r: String)
    ensures
        r@ == decimal(n as nat),
{
    let mut v: Vec<char> = Vec::new();
    push_decimal(n, &mut v);
    proof {
        assert(Seq::<char>::empty() + decimal(n as nat) == decimal(n as nat));
    }
    string_of(&v)
}

/// The HTML body template, assembled from its pieces.
fn assemble_body() -> (r: String)
    ensures
        r@ == flatten(body_segments()),
{
    let mut b = String::from_str(BODY_HEAD);
    b.append("{{name}}");
    b.append(",</p>\n<p>Your ");
    b.append("{{provider}}");
    b.append(" eSIM for ");
    b.append("{{location}}");
    b.append(" is ready.</p>\n<p>Plan: ");
    b.append("{{data_amount}}");
    b.append(" valid for ");
    b.append("{{time_period}}");
    b.append(BODY_SCAN);
    b.append("{{QR_CID}}");
    b.append(BODY_TAIL);
    proof {
        lemma_slot_literals();
        reveal_with_fuel(flatten, 14);
        assert(b@ =~= flatten(body_segments()));
    }
    b
}

/// Substituting a key in the text of well-formed pieces is filling the
/// pieces: each placeholder of the key, and nothing else, becomes the value.
pub proof fn lemma_fill_segments(segs: Seq<(bool, Seq<char>)>, key: Seq<char>, value: Seq<char>)
    requires
        segments_wf(segs),
        brace_free(key),
        key.len() > 0,
        no_open_brace(value),
    ensures
        replace_spec(flatten(segs), slot(key), value) == flatten(fill(segs, key, value)),
        segments_wf(fill(segs, key, value)),
    decreases segs.len(),
{
    let f = fill(segs, key, value);
    assert(segments_wf(f)) by {
        assert forall|i: int| 0 <= i < f.len() implies (if (#[trigger] f[i]).0 {
            brace_free(f[i].1) && f[i].1.len() > 0
        } else {
            no_open_brace(f[i].1)
        }) by {
            assert(segs[i] == segs[i]);
        }
    }
    if segs.len() == 0 {
        assert(flatten(f) == Seq::<char>::empty());
    } else {
        let rest = segs.subrange(1, segs.len() as int);
        assert(segments_wf(rest)) by {
            assert forall|i: int| 0 <= i < rest.len() implies (if (#[trigger] rest[i]).0 {
                brace_free(rest[i].1) && rest[i].1.len() > 0
            } else {
                no_open_brace(rest[i].1)
            }) by {
                assert(rest[i] == segs[i + 1]);
            }
        }
        lemma_fill_segments(rest, key, value);
        assert(f.subrange(1, f.len() as int) =~= fill(rest, key, value));
        let pat = slot(key);
        assert(pat[0] == '{');
        assert(segs[0] == segs[0]);
        if segs[0].0 && segs[0].1 == key {
            lemma_fill_own(flatten(rest), pat, value);
        } else if segs[0].0 {
            lemma_keep_other(flatten(rest), key, segs[0].1, value);
        } else {
            lemma_skip_plain(segs[0].1, flatten(rest), pat, value);
        }
    }
}

/// The text of the pieces holds the text of each piece.
pub proof fn lemma_flatten_contains(segs: Seq<(bool, Seq<char>)>, i: int)
    requires
        0 <= i < segs.len(),
    ensures
        contains(flatten(segs), piece(segs[i])),
    decreases segs.len(),
{
    let t = flatten(segs);
    let rest = segs.subrange(1, segs.len() as int);
    let p0 = piece(segs[0]);
    if i == 0 {
        assert(t.subrange(0, p0.len() as int) =~= p0);
        assert(occurs_at(t, p0, 0));
    } else {
        lemma_flatten_contains(rest, i - 1);
        assert(rest[i - 1] == segs[i]);
        let w = piece(segs[i]);
        let j = choose|j: int| occurs_at(flatten(rest), w, j);
        assert(t.subrange(p0.len() + j, p0.len() + j + w.len()) =~= flatten(rest).subrange(
            j,
            j + w.len(),
        ));
        assert(occurs_at(t, w, p0.len() + j));
    }
}

/// Well-formed pieces without a placeholder of `key` have a text in which
/// that placeholder does not occur.
pub proof fn lemma_no_slot(segs: Seq<(bool, Seq<char>)>, key: Seq<char>)
    requires
        segments_wf(segs),
        brace_free(key),
        key.len() > 0,
        forall|i: int| 0 <= i < segs.len() ==> !((#[trigger] segs[i]).0 && segs[i].1 == key),
    ensures
        !contains(flatten(segs), slot(key)),
{
    let t = flatten(segs);
    let long = Seq::new((t.len() + 1) as nat, |i: int| 'x');
    lemma_fill_segments(segs, key, long);
    assert(fill(segs, key, long) =~= segs);
    if contains(t, slot(key)) {
        let j = choose|j: int| occurs_at(t, slot(key), j);
        lemma_replace_inserts(t, slot(key), long, j);
    }
}

/// The pieces of the shipped body once the five fields are filled.
pub open spec fn rendered_segments(
    provider: Seq<char>,
    name: Seq<char>,
    data_amount: Seq<char>,
    time_period: Seq<char>,
    location: Seq<char>,
) -> Seq<(bool, Seq<char>)> {
    fill(
        fill(
            fill(
                fill(fill(body_segments(), "provider"@, provider), "name"@, name),
                "data_amount"@,
                data_amount,
            ),
            "time_period"@,
            time_period,
        ),
        "location"@,
        location,
    )
}

/// Rendering the shipped body fills its pieces: the field values stand where
/// their placeholders stood, and the Content-ID placeholder is the only one
/// left.
proof fn lemma_rendered(
    provider: Seq<char>,
    name: Seq<char>,
    data_amount: Seq<char>,
    time_period: Seq<char>,
    location: Seq<char>,
)
    requires
        no_open_brace(provider),
        no_open_brace(name),
        no_open_brace(data_amount),
        no_open_brace(time_period),
        no_open_brace(location),
    ensures
        ({
            let s5 = rendered_segments(provider, name, data_amount, time_period, location);
            &&& body_spec(
                flatten(body_segments()),
                provider,
                name,
                data_amount,
                time_period,
                location,
            ) == flatten(s5)
            &&& segments_wf(s5)
            &&& s5.len() == 13
            &&& s5[3] == (false, provider)
            &&& s5[1] == (false, name)
            &&& s5[7] == (false, data_amount)
            &&& s5[9] == (false, time_period)
            &&& s5[5] == (false, location)
            &&& s5[11] == (true, "QR_CID"@)
            &&& forall|i: int| 0 <= i < s5.len() && (#[trigger] s5[i]).0 ==> s5[i].1 == "QR_CID"@
        }),
{
    lemma_slot_literals();
    lemma_body_segments_wf();
    lemma_keys_brace_free();
    reveal_strlit("name");
    reveal_strlit("provider");
    reveal_strlit("location");
    reveal_strlit("data_amount");
    reveal_strlit("time_period");
    reveal_strlit("QR_CID");
    assert("data_amount"@[0] != "time_period"@[0]);
    assert("location"@[0] != "provider"@[0]);
    assert("QR_CID"@.len() != "provider"@.len());
    assert("QR_CID"@[0] != "location"@[0]);
    let s0 = body_segments();
    lemma_fill_segments(s0, "provider"@, provider);
    let s1 = fill(s0, "provider"@, provider);
    lemma_fill_segments(s1, "name"@, name);
    let s2 = fill(s1, "name"@, name);
    lemma_fill_segments(s2, "data_amount"@, data_amount);
    let s3 = fill(s2, "data_amount"@, data_amount);
    lemma_fill_segments(s3, "time_period"@, time_period);
    let s4 = fill(s3, "time_period"@, time_period);
    lemma_fill_segments(s4, "location"@, location);
    let s5 = fill(s4, "location"@, location);
    assert(s0[3] == (true, "provider"@));
    assert(s0[1] == (true, "name"@));
    assert(s0[7] == (true, "data_amount"@));
    assert(s0[9] == (true, "time_period"@));
    assert(s0[5] == (true, "location"@));
    assert(s0[11] == (true, "QR_CID"@));
    assert forall|i: int| 0 <= i < s5.len() && (#[trigger] s5[i]).0 implies s5[i].1 == "QR_CID"@ by {
        if 0 <= i < 13 && i != 1 && i != 3 && i != 5 && i != 7 && i != 9 && i != 11 {
            assert(!s0[i].0) by {
                if i == 0 {} else if i == 2 {} else if i == 4 {} else if i == 6 {}
                else if i == 8 {} else if i == 10 {} else {}
            }
        }
    }
}

/// Rendering the shipped body puts every field value into it verbatim and
/// leaves none of the five field placeholders behind, for field values that
/// hold no opening brace. (A value that itself holds a placeholder is
/// substituted or kept according to the fixed substitution order.)
pub proof fn lemma_body_fills_every_field(
    provider: Seq<char>,
    name: Seq<char>,
    data_amount: Seq<char>,
    time_period: Seq<char>,
    location: Seq<char>,
)
    requires
        no_open_brace(provider),
        no_open_brace(name),
        no_open_brace(data_amount),
        no_open_brace(time_period),
        no_open_brace(location),
    ensures
        ({
            let b = body_spec(
                flatten(body_segments()),
                provider,
                name,
                data_amount,
                time_period,
                location,
            );
            &&& contains(b, provider)
            &&& contains(b, name)
            &&& contains(b, data_amount)
            &&& contains(b, time_period)
            &&& contains(b, location)
            &&& !contains(b, "{{provider}}"@)
            &&& !contains(b, "{{name}}"@)
            &&& !contains(b, "{{data_amount}}"@)
            &&& !contains(b, "{{time_period}}"@)
            &&& !contains(b, "{{location}}"@)
        }),
{
    lemma_rendered(provider, name, data_amount, time_period, location);
    lemma_slot_literals();
    lemma_keys_brace_free();
    reveal_strlit("name");
    reveal_strlit("provider");
    reveal_strlit("location");
    reveal_strlit("data_amount");
    reveal_strlit("time_period");
    reveal_strlit("QR_CID");
    let s5 = rendered_segments(provider, name, data_amount, time_period, location);
    lemma_flatten_contains(s5, 3);
    lemma_flatten_contains(s5, 1);
    lemma_flatten_contains(s5, 7);
    lemma_flatten_contains(s5, 9);
    lemma_flatten_contains(s5, 5);
    lemma_no_slot(s5, "provider"@);
    lemma_no_slot(s5, "name"@);
    lemma_no_slot(s5, "data_amount"@);
    lemma_no_slot(s5, "time_period"@);
    lemma_no_slot(s5, "location"@);
}

/// Splicing a Content-ID into the rendered shipped body makes the HTML refer
/// to that Content-ID and leaves no Content-ID placeholder behind, for a
/// Content-ID and field values that hold no opening brace.
pub proof fn lemma_body_refers_to_content_id(
    provider: Seq<char>,
    name: Seq<char>,
    data_amount: Seq<char>,
    time_period: Seq<char>,
    location: Seq<char>,
    content_id: Seq<char>,
)
    requires
        no_open_brace(provider),
        no_open_brace(name),
        no_open_brace(data_amount),
        no_open_brace(time_period),
        no_open_brace(location),
        no_open_brace(content_id),
    ensures
        ({
            let html = replace_spec(
                body_spec(
                    flatten(body_segments()),
                    provider,
                    name,
                    data_amount,
                    time_period,
                    location,
                ),
                "{{QR_CID}}"@,
                content_id,
            );
            contains(html, content_id) && !contains(html, "{{QR_CID}}"@)
        }),
{
    lemma_rendered(provider, name, data_amount, time_period, location);
    lemma_slot_literals();
    reveal_strlit("QR_CID");
    assert(brace_free("QR_CID"@));
    let s5 = rendered_segments(provider, name, data_amount, time_period, location);
    lemma_fill_segments(s5, "QR_CID"@, content_id);
    let s6 = fill(s5, "QR_CID"@, content_id);
    lemma_flatten_contains(s6, 11);
    lemma_no_slot(s6, "QR_CID"@);
}

/// The five field keys are non-empty words without braces.
proof fn lemma_keys_brace_free()
    ensures
        brace_free("provider"@) && "provider"@.len() > 0,
        brace_free("name"@) && "name"@.len() > 0,
        brace_free("data_amount"@) && "data_amount"@.len() > 0,
        brace_free("time_period"@) && "time_period"@.len() > 0,
        brace_free("location"@) && "location"@.len() > 0,
{
    reveal_strlit("name");
    reveal_strlit("provider");
    reveal_strlit("location");
    reveal_strlit("data_amount");
    reveal_strlit("time_period");
}

/// The pieces of the shipped body are well formed, and its keys differ.
proof fn lemma_body_segments_wf()
    ensures
        segments_wf(body_segments()),
        body_segments().len() == 13,
{
    reveal_strlit("name");
    reveal_strlit("provider");
    reveal_strlit("location");
    reveal_strlit("data_amount");
    reveal_strlit("time_period");
    reveal_strlit("QR_CID");
    reveal_strlit(",</p>\n<p>Your ");
    reveal_strlit(" eSIM for ");
    reveal_strlit(" is ready.</p>\n<p>Plan: ");
    reveal_strlit(" valid for ");
    let segs = body_segments();
    assert forall|i: int| 0 <= i < segs.len() implies (if (#[trigger] segs[i]).0 {
        brace_free(segs[i].1) && segs[i].1.len() > 0
    } else {
        no_open_brace(segs[i].1)
    }) by {
        if i == 0 {
            reveal_strlit("<!DOCTYPE html>\n<html>\n<head>\n<meta charset=\"utf-8\">\n<title>eSIM</title>\n</head>\n<body style=\"font-family: Arial, sans-serif; color: #222222;\">\n<p>Hello ");
        } else if i == 10 {
            reveal_strlit(".</p>\n<p>Scan the QR code below with your phone to install it:</p>\n<p><img src=\"cid:");
        } else if i == 12 {
            reveal_strlit("\" alt=\"eSIM QR code\" width=\"300\" height=\"300\"></p>\n</body>\n</html>\n");
        }
    }
}

/// The placeholder literals are the slots of their keys.
proof fn lemma_slot_literals()
    ensures
        "{{name}}"@ == slot("name"@),
        "{{provider}}"@ == slot("provider"@),
        "{{location}}"@ == slot("location"@),
        "{{data_amount}}"@ == slot("data_amount"@),
        "{{time_period}}"@ == slot("time_period"@),
        "{{QR_CID}}"@ == slot("QR_CID"@),
{
    reveal_strlit("{{name}}");
    reveal_strlit("name");
    reveal_strlit("{{provider}}");
    reveal_strlit("provider");
    reveal_strlit("{{location}}");
    reveal_strlit("location");
    reveal_strlit("{{data_amount}}");
    reveal_strlit("data_amount");
    reveal_strlit("{{time_period}}");
    reveal_strlit("time_period");
    reveal_strlit("{{QR_CID}}");
    reveal_strlit("QR_CID");
    assert("{{name}}"@ =~= slot("name"@));
    assert("{{provider}}"@ =~= slot("provider"@));
    assert("{{location}}"@ =~= slot("location"@));
    assert("{{data_amount}}"@ =~= slot("data_amount"@));
    assert("{{time_period}}"@ =~= slot("time_period"@));
    assert("{{QR_CID}}"@ =~= slot("QR_CID"@));
}

/// The two fixed templates that every notification is rendered from.
pub struct EmailTemplate {
    subject_template: &'static str,
    body_template: String,
}

impl EmailTemplate {
    /// The subject template as a character sequence.
    pub closed spec fn subject_view(&self) -> Seq<char> {
        self.subject_template@
    }

    /// The body template as a character sequence.
    pub closed spec fn body_view(&self) -> Seq<char> {
        self.body_template@
    }

    /// The templates shipped with the library.
    pub fn new() -> (r: EmailTemplate)
        ensures
            r.subject_view() == SUBJECT_TEMPLATE@,
            r.body_view() == flatten(body_segments()),
    {
        EmailTemplate { subject_template: SUBJECT_TEMPLATE, body_template: assemble_body() }
    }

    /// The subject for `args`, numbered with `count`.
    pub fn subject(&self, args: &Args, count: usize) -> (r: String)
        ensures
            r@ == subject_spec(self.subject_view(), args.provider@, args.location@, count as nat),
    {
        proof {
            reveal_strlit("{{provider}}");
            reveal_strlit("{{location}}");
        }
        let s1 = replace_all(self.subject_template, "{{provider}}", args.provider.as_str());
        let s2 = replace_all(s1.as_str(), "{{location}}", args.location.as_str());
        let s3 = s2.concat(" - ");
        let digits = decimal_string(count);
        s3.concat(digits.as_str())
    }

    /// The HTML body for `args`; `{{QR_CID}}` stays in it.
    pub fn body(&self, args: &Args) -> (r: String)
        ensures
            r@ == body_spec(
                self.body_view(),
                args.provider@,
                args.name@,
                args.data_amount@,
                args.time_period@,
                args.location@,
            ),
    {
        proof {
            reveal_strlit("{{provider}}");
            reveal_strlit("{{name}}");
            reveal_strlit("{{data_amount}}");
            reveal_strlit("{{time_period}}");
            reveal_strlit("{{location}}");
        }
        let s1 = replace_all(self.body_template.as_str(), "{{provider}}", args.provider.as_str());
        let s2 = replace_all(s1.as_str(), "{{name}}", args.name.as_str());
        let s3 = replace_all(s2.as_str(), "{{data_amount}}", args.data_amount.as_str());
        let s4 = replace_all(s3.as_str(), "{{time_period}}", args.time_period.as_str());
        replace_all(s4.as_str(), "{{location}}", args.location.as_str())
    }
}

impl Default for EmailTemplate {
    fn default() -> (r: EmailTemplate)
        ensures
            r.subject_view() == SUBJECT_TEMPLATE@,
            r.body_view() == flatten(body_segments()),
    {
        EmailTemplate::new()
    }
}

} // verus!
