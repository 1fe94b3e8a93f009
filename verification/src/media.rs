//! Open Graph images enriched from the media library: descriptors taken
//! from the media record, alt text from its translations, and the image
//! fields offered to SEO templates.
use vstd::prelude::*;

use crate::dto::SeoImageAsset;
use crate::text::{
    dec_int, i32_to_string, is_blank, opt_view, owned, trim, trim_str, trimmed_nonblank,
};

verus! {

/// Whether an optional text is absent or blank.
pub open spec fn missing_text(o: Option<Seq<char>>) -> bool {
    match o {
        Some(s) => trim(s).len() == 0,
        None => true,
    }
}

/// Fills what an image lacks from its media record: width and height when
/// absent, the media type when absent or blank; the URL and alt text stay.
/// The result tells whether the image still has no alt text, so that the
/// media translations are consulted.
pub fn fill_image_from_media(image: &mut SeoImageAsset, width: Option<i32>, height: Option<i32>, mime_type: String) -> (needs_alt: bool)
    ensures
        final(image).url == old(image).url,
        final(image).alt == old(image).alt,
        final(image).width == if old(image).width is None {
            width
        } else {
            old(image).width
        },
        final(image).height == if old(image).height is None {
            height
        } else {
            old(image).height
        },
        final(image).mime_type == if missing_text(opt_view(old(image).mime_type)) {
            Some(mime_type)
        } else {
            old(image).mime_type
        },
        needs_alt == missing_text(opt_view(old(image).alt)),
{
    if image.width.is_none() {
        image.width = width;
    }
    if image.height.is_none() {
        image.height = height;
    }
    let blank_mime = match &image.mime_type {
        Some(m) => is_blank(m.as_str()),
        None => true,
    };
    if blank_mime {
        image.mime_type = Some(mime_type);
    }
    match &image.alt {
        Some(a) => is_blank(a.as_str()),
        None => true,
    }
}

/// The first alt text present among the translations, blank or not.
pub open spec fn first_alt(alts: Seq<Option<String>>) -> Option<Seq<char>>
    decreases alts.len(),
{
    if alts.len() == 0 {
        None
    } else {
        match alts[0] {
            Some(a) => Some(a@),
            None => first_alt(alts.drop_first()),
        }
    }
}

/// The alt text a media record offers: the trimmed alt of the translation
/// resolved for the locale when it is not blank; otherwise the trimmed
/// first alt present among all translations, when that is not blank.
pub open spec fn media_alt(resolved: Option<Seq<char>>, alts: Seq<Option<String>>) -> Option<Seq<char>> {
    match resolved {
        Some(r) => if trim(r).len() > 0 {
            Some(trim(r))
        } else {
            match first_alt(alts) {
                Some(a) => trimmed_nonblank(a),
                None => None,
            }
        },
        None => match first_alt(alts) {
            Some(a) => trimmed_nonblank(a),
            None => None,
        },
    }
}

/// The alt text a media record offers (see `media_alt`); `resolved_alt`
/// is the alt of the translation resolved for the locale, and `alts` the
/// alts of all translations in order.
pub fn media_alt_text(resolved_alt: Option<&str>, alts: &Vec<Option<String>>) -> (r: Option<String>)
    ensures
        opt_view(r) == media_alt(
            match resolved_alt {
                Some(a) => Some(a@),
                None => None,
            },
            alts@,
        ),
{
    if let Some(a) = resolved_alt {
        if !is_blank(a) {
            return Some(trim_str(a));
        }
    }
    let mut i: usize = 0;
    assert(alts@.skip(0) =~= alts@);
    while i < alts.len()
        invariant
            i <= alts.len(),
            first_alt(alts@) == first_alt(alts@.skip(i as int)),
            resolved_alt matches Some(x) ==> trim(x@).len() == 0,
        decreases alts.len() - i,
    {
        assert(alts@.skip(i as int)[0] == alts@[i as int]);
        assert(alts@.skip(i as int).drop_first() =~= alts@.skip(i as int + 1));
        if let Some(a) = &alts[i] {
            return crate::text::trim_to_option(a.as_str());
        }
        i = i + 1;
    }
    assert(alts@.skip(alts.len() as int) =~= Seq::<Option<String>>::empty());
    None
}

/// The image fields offered to SEO templates by the first Open Graph
/// image: its URL; its trimmed alt text and media type when not blank; its
/// width and height when known.
pub open spec fn image_fields(image: SeoImageAsset) -> Seq<(Seq<char>, Seq<char>)> {
    seq![("image_url"@, image.url@)] + (match trimmed_nonblank_opt(opt_view(image.alt)) {
        Some(a) => seq![("image_alt"@, a)],
        None => Seq::empty(),
    }) + (match image.width {
        Some(w) => seq![("image_width"@, dec_int(w as int))],
        None => Seq::empty(),
    }) + (match image.height {
        Some(h) => seq![("image_height"@, dec_int(h as int))],
        None => Seq::empty(),
    }) + (match trimmed_nonblank_opt(opt_view(image.mime_type)) {
        Some(m) => seq![("image_mime_type"@, m)],
        None => Seq::empty(),
    })
}

/// The trimmed text of an optional text, when present and not blank.
pub open spec fn trimmed_nonblank_opt(o: Option<Seq<char>>) -> Option<Seq<char>> {
    match o {
        Some(s) => trimmed_nonblank(s),
        None => None,
    }
}

/// The views of template field pairs.
pub open spec fn fields_view(v: Seq<(String, String)>) -> Seq<(Seq<char>, Seq<char>)> {
    v.map_values(|p: (String, String)| (p.0@, p.1@))
}

/// The template fields of the first Open Graph image (see
/// `image_fields`).
pub fn image_template_fields(image: &SeoImageAsset) -> (r: Vec<(String, String)>)
    ensures
        fields_view(r@) == image_fields(*image),
{
    let mut out: Vec<(String, String)> = Vec::new();
    out.push((owned("image_url"), image.url.clone()));
    let ghost a = fields_view(out@);
    assert(a =~= seq![("image_url"@, image.url@)]);
    if let Some(alt) = &image.alt {
        if let Some(t) = crate::text::trim_to_option(alt.as_str()) {
            let ghost before = out@;
            out.push((owned("image_alt"), t));
            assert(fields_view(out@) =~= fields_view(before).push(("image_alt"@, out@.last().1@)));
        }
    }
    let ghost b = fields_view(out@);
    if let Some(w) = image.width {
        let ghost before = out@;
        out.push((owned("image_width"), i32_to_string(w)));
        assert(fields_view(out@) =~= fields_view(before).push(("image_width"@, out@.last().1@)));
    }
    let ghost c = fields_view(out@);
    if let Some(h) = image.height {
        let ghost before = out@;
        out.push((owned("image_height"), i32_to_string(h)));
        assert(fields_view(out@) =~= fields_view(before).push(("image_height"@, out@.last().1@)));
    }
    let ghost d = fields_view(out@);
    if let Some(m) = &image.mime_type {
        if let Some(t) = crate::text::trim_to_option(m.as_str()) {
            let ghost before = out@;
            out.push((owned("image_mime_type"), t));
            assert(fields_view(out@) =~= fields_view(before).push(("image_mime_type"@, out@.last().1@)));
        }
    }
    assert(fields_view(out@) =~= image_fields(*image));
    out
}

} // verus!
