use vstd::prelude::*;

use crate::error::ImagioError;
use crate::variant::{spec_variant_name, Variant};

verus! {

/// What a MIME text parses to: `None` for malformed text, otherwise the
/// subtype part (for `"image/png"` the characters `png`), exactly as
/// `mime::Mime::from_str` and `Mime::subtype` compute it.
pub uninterp spec fn mime_subtype_of(s: Seq<char>) -> Option<Seq<char>>;

/// Relies on `mime::Mime::from_str` (through `mime_guess`): parsing is
/// a deterministic function of the text, and `Mime::subtype` returns
/// the slice between the slash and any plus sign, semicolon or end.
#[verifier::external_body]
fn parse_mime_subtype(s: &str) -> (r: Option<String>)
    ensures
        match mime_subtype_of(s@) {
            Some(t) => r matches Some(sub) && sub@ == t,
            None => r is None,
        },
{
    match s.parse::<mime_guess::Mime>() {
        Ok(m) => Some(m.subtype().as_str().to_owned()),
        Err(_) => None,
    }
}

pub open spec fn spec_upper_char(c: char) -> char {
    if 'a' <= c && c <= 'z' {
        ((c as u32 - 32) as u8) as char
    } else {
        c
    }
}

pub open spec fn spec_ascii_upper(s: Seq<char>) -> Seq<char> {
    s.map_values(|c: char| spec_upper_char(c))
}

/// Relies on `str::to_ascii_uppercase`: ASCII letters are mapped to
/// their upper-case equivalents and all other characters are unchanged.
#[verifier::external_body]
fn ascii_upper(s: &str) -> (r: String)
    ensures
        r@ == spec_ascii_upper(s@),
{
    s.to_ascii_uppercase()
}

/// The key extension a MIME subtype maps to: its canonical file
/// extension, upper-cased. The subtype `jpeg` shortens to the
/// canonical `jpg`; every other subtype is its own extension.
pub open spec fn spec_ext_of_subtype(sub: Seq<char>) -> Seq<char> {
    if sub == "jpeg"@ {
        "JPG"@
    } else {
        spec_ascii_upper(sub)
    }
}

/// The stem of a stored file's name: the characters before the first
/// dot (for `"abc.JPG"` the characters `abc`). The reconciliation
/// sweep reads the uuid of an already-stored original out of its file
/// name with this.
pub open spec fn spec_stem(s: Seq<char>) -> Seq<char>
    decreases s.len(),
{
    if s.len() == 0 {
        Seq::empty()
    } else if s[0] == '.' {
        Seq::empty()
    } else {
        seq![s[0]] + spec_stem(s.subrange(1, s.len() as int))
    }
}

proof fn lemma_stem_prefix(s: Seq<char>, i: int)
    requires
        0 <= i <= s.len(),
        forall|j: int| 0 <= j < i ==> s[j] != '.',
        i < s.len() ==> s[i] == '.',
    ensures
        spec_stem(s) == s.subrange(0, i),
    decreases i,
{
    if i == 0 {
        assert(spec_stem(s) =~= s.subrange(0, 0));
    } else {
        let t = s.subrange(1, s.len() as int);
        lemma_stem_prefix(t, i - 1);
        assert(spec_stem(s) == seq![s[0]] + spec_stem(t));
        assert(s.subrange(0, i) =~= seq![s[0]] + t.subrange(0, i - 1));
    }
}

fn dot_index(name: &str) -> (r: usize)
    ensures
        r <= name@.len(),
        forall|j: int| 0 <= j < r ==> name@[j] != '.',
        r < name@.len() ==> name@[r as int] == '.',
{
    let n = name.unicode_len();
    let mut i: usize = 0;
    while i < n
        invariant
            i <= n,
            n == name@.len(),
            forall|j: int| 0 <= j < i ==> name@[j] != '.',
        decreases n - i,
    {
        if name.get_char(i) == '.' {
            return i;
        }
        i = i + 1;
    }
    n
}

/// The file name's characters before the first dot; the whole name
/// when it has no dot.
pub fn file_stem(name: &str) -> (r: String)
    ensures
        r@ == spec_stem(name@),
{
    let i = dot_index(name);
    let stem = name.substring_char(0, i);
    proof {
        lemma_stem_prefix(name@, i as int);
    }
    stem.to_owned()
}

/// One stored image: its immutable identity, the tenant category it
/// was uploaded under, and its MIME type. The upper-cased extension
/// derived from the MIME subtype is computed once at construction and
/// carried along, since every storage key embeds it.
pub struct ImagioImage {
    pub uuid: String,
    pub category: String,
    pub mime: String,
    pub ext: String,
}

/// A record is well formed when its extension is the canonical
/// upper-cased extension of its (well-formed) MIME text's subtype.
pub open spec fn spec_image_wf(img: ImagioImage) -> bool {
    match mime_subtype_of(img.mime@) {
        Some(t) => img.ext@ == spec_ext_of_subtype(t),
        None => false,
    }
}

/// The storage key of a record and variant: a pure function of the
/// record's fields and the variant, identical for the `originals` and
/// the `derivatives` namespace.
pub open spec fn spec_filename(img: ImagioImage, v: Variant) -> Seq<char> {
    if v is Original {
        img.category@ + "/"@ + img.uuid@ + "."@ + img.ext@
    } else {
        img.category@ + "_"@ + img.uuid@ + "_"@ + spec_variant_name(v) + "."@ + img.ext@
    }
}

/// Key derivation is deterministic: two records with the same field
/// contents map to the same key for every variant, across repeated
/// calls and across process restarts.
pub proof fn lemma_key_deterministic(a: ImagioImage, b: ImagioImage, v: Variant)
    requires
        a.uuid@ == b.uuid@,
        a.category@ == b.category@,
        a.ext@ == b.ext@,
    ensures
        spec_filename(a, v) == spec_filename(b, v),
{
}

/// No occurrence of the character in the sequence.
pub open spec fn spec_no_char(s: Seq<char>, c: char) -> bool {
    forall|i: int| 0 <= i < s.len() ==> s[i] != c
}

/// The fields that make key derivation collision-free: none of the
/// key format's separator characters (`_`, `/`, `.`) occurs in the
/// category, the uuid or the extension. Uuids the service assigns and
/// extensions it derives satisfy this; a field carrying a separator
/// can collide, since the format does not escape its separators.
pub open spec fn spec_key_safe(img: ImagioImage) -> bool {
    &&& spec_no_char(img.category@, '_') && spec_no_char(img.category@, '/') && spec_no_char(
        img.category@,
        '.',
    )
    &&& spec_no_char(img.uuid@, '_') && spec_no_char(img.uuid@, '/') && spec_no_char(
        img.uuid@,
        '.',
    )
    &&& spec_no_char(img.ext@, '_') && spec_no_char(img.ext@, '/') && spec_no_char(img.ext@, '.')
}

proof fn lemma_no_char_single(x: char, c: char)
    requires
        x != c,
    ensures
        spec_no_char(seq![x], c),
{
    assert forall|i: int| 0 <= i < seq![x].len() implies seq![x][i] != c by {
        assert(seq![x][i] == x);
    }
}

proof fn lemma_no_char_concat(x: Seq<char>, y: Seq<char>, c: char)
    requires
        spec_no_char(x, c),
        spec_no_char(y, c),
    ensures
        spec_no_char(x + y, c),
{
    assert forall|i: int| 0 <= i < (x + y).len() implies (x + y)[i] != c by {
        if i < x.len() {
            assert((x + y)[i] == x[i]);
        } else {
            assert((x + y)[i] == y[i - x.len()]);
        }
    }
}

/// A separator splits a concatenation uniquely as long as neither
/// prefix contains it.
proof fn lemma_split_at_sep(a: Seq<char>, b: Seq<char>, c: Seq<char>, d: Seq<char>, sep: char)
    requires
        spec_no_char(a, sep),
        spec_no_char(c, sep),
        a + seq![sep] + b == c + seq![sep] + d,
    ensures
        a == c,
        b == d,
{
    let s = a + seq![sep] + b;
    let t = c + seq![sep] + d;
    assert(s.len() == t.len());
    if a.len() < c.len() {
        assert(s[a.len() as int] == sep);
        assert(t[a.len() as int] == c[a.len() as int]);
        assert(false);
    }
    if c.len() < a.len() {
        assert(t[c.len() as int] == sep);
        assert(s[c.len() as int] == a[c.len() as int]);
        assert(false);
    }
    assert(a =~= c) by {
        assert forall|i: int| 0 <= i < a.len() implies a[i] == c[i] by {
            assert(s[i] == a[i]);
            assert(t[i] == c[i]);
        }
    }
    assert(b =~= d) by {
        assert forall|i: int| 0 <= i < b.len() implies b[i] == d[i] by {
            assert(s[a.len() + 1 + i] == b[i]);
            assert(t[c.len() + 1 + i] == d[i]);
        }
    }
}

proof fn lemma_variant_name_chars(v: Variant)
    ensures
        spec_no_char(spec_variant_name(v), '.'),
        spec_no_char(spec_variant_name(v), '/'),
        spec_variant_name(v).len() >= 1,
{
    reveal_strlit("public");
    reveal_strlit("embed");
    reveal_strlit("thumb");
    reveal_strlit("banner");
    reveal_strlit("square");
    reveal_strlit("original");
    assert("public"@ =~= seq!['p', 'u', 'b', 'l', 'i', 'c']);
    assert("embed"@ =~= seq!['e', 'm', 'b', 'e', 'd']);
    assert("thumb"@ =~= seq!['t', 'h', 'u', 'm', 'b']);
    assert("banner"@ =~= seq!['b', 'a', 'n', 'n', 'e', 'r']);
    assert("square"@ =~= seq!['s', 'q', 'u', 'a', 'r', 'e']);
    assert("original"@ =~= seq!['o', 'r', 'i', 'g', 'i', 'n', 'a', 'l']);
}

proof fn lemma_variant_name_injective(v1: Variant, v2: Variant)
    requires
        spec_variant_name(v1) == spec_variant_name(v2),
    ensures
        v1 == v2,
{
    reveal_strlit("public");
    reveal_strlit("embed");
    reveal_strlit("thumb");
    reveal_strlit("banner");
    reveal_strlit("square");
    reveal_strlit("original");
    assert("public"@ =~= seq!['p', 'u', 'b', 'l', 'i', 'c']);
    assert("embed"@ =~= seq!['e', 'm', 'b', 'e', 'd']);
    assert("thumb"@ =~= seq!['t', 'h', 'u', 'm', 'b']);
    assert("banner"@ =~= seq!['b', 'a', 'n', 'n', 'e', 'r']);
    assert("square"@ =~= seq!['s', 'q', 'u', 'a', 'r', 'e']);
    assert("original"@ =~= seq!['o', 'r', 'i', 'g', 'i', 'n', 'a', 'l']);
}

/// Key derivation is collision-free over separator-free fields: two
/// key-safe records and variants with the same storage key agree on
/// the category, the uuid, the extension and the variant — so the
/// derivative cache can be emptied externally, and distinct uuids
/// never share an entry.
pub proof fn lemma_key_injective(a: ImagioImage, b: ImagioImage, v1: Variant, v2: Variant)
    requires
        spec_key_safe(a),
        spec_key_safe(b),
        spec_filename(a, v1) == spec_filename(b, v2),
    ensures
        a.category@ == b.category@,
        a.uuid@ == b.uuid@,
        a.ext@ == b.ext@,
        v1 == v2,
{
    reveal_strlit("/");
    reveal_strlit("_");
    reveal_strlit(".");
    assert("/"@ =~= seq!['/']);
    assert("_"@ =~= seq!['_']);
    assert("."@ =~= seq!['.']);
    lemma_variant_name_chars(v1);
    lemma_variant_name_chars(v2);
    if v1 is Original && v2 is Original {
        let ta = a.uuid@ + seq!['.'] + a.ext@;
        let tb = b.uuid@ + seq!['.'] + b.ext@;
        assert(spec_filename(a, v1) =~= a.category@ + seq!['/'] + ta);
        assert(spec_filename(b, v2) =~= b.category@ + seq!['/'] + tb);
        lemma_split_at_sep(a.category@, ta, b.category@, tb, '/');
        lemma_split_at_sep(a.uuid@, a.ext@, b.uuid@, b.ext@, '.');
    } else if !(v1 is Original) && !(v2 is Original) {
        let na = spec_variant_name(v1);
        let nb = spec_variant_name(v2);
        let ta = a.uuid@ + seq!['_'] + (na + seq!['.'] + a.ext@);
        let tb = b.uuid@ + seq!['_'] + (nb + seq!['.'] + b.ext@);
        assert(spec_filename(a, v1) =~= a.category@ + seq!['_'] + ta);
        assert(spec_filename(b, v2) =~= b.category@ + seq!['_'] + tb);
        lemma_split_at_sep(a.category@, ta, b.category@, tb, '_');
        lemma_split_at_sep(
            a.uuid@,
            na + seq!['.'] + a.ext@,
            b.uuid@,
            nb + seq!['.'] + b.ext@,
            '_',
        );
        lemma_split_at_sep(na, a.ext@, nb, b.ext@, '.');
        lemma_variant_name_injective(v1, v2);
    } else if v1 is Original {
        lemma_derivative_key_slash_free(b, v2);
        let k = spec_filename(a, v1);
        assert(k =~= a.category@ + seq!['/'] + (a.uuid@ + seq!['.'] + a.ext@));
        assert((a.category@ + seq!['/'])[a.category@.len() as int] == '/');
        assert(k[a.category@.len() as int] == '/');
        assert(false);
    } else {
        lemma_derivative_key_slash_free(a, v1);
        let k = spec_filename(b, v2);
        assert(k =~= b.category@ + seq!['/'] + (b.uuid@ + seq!['.'] + b.ext@));
        assert((b.category@ + seq!['/'])[b.category@.len() as int] == '/');
        assert(k[b.category@.len() as int] == '/');
        assert(false);
    }
}

/// A derivative key of separator-free fields holds no slash (an
/// `Original` key always holds one, so the two shapes never collide).
proof fn lemma_derivative_key_slash_free(b: ImagioImage, v2: Variant)
    requires
        spec_key_safe(b),
        !(v2 is Original),
    ensures
        spec_no_char(spec_filename(b, v2), '/'),
{
    reveal_strlit("/");
    reveal_strlit("_");
    reveal_strlit(".");
    assert("/"@ =~= seq!['/']);
    assert("_"@ =~= seq!['_']);
    assert("."@ =~= seq!['.']);
    lemma_variant_name_chars(v2);
    lemma_no_char_single('_', '/');
    lemma_no_char_single('.', '/');
    lemma_no_char_concat(b.category@, seq!['_'], '/');
    lemma_no_char_concat(b.category@ + seq!['_'], b.uuid@, '/');
    lemma_no_char_concat(b.category@ + seq!['_'] + b.uuid@, seq!['_'], '/');
    lemma_no_char_concat(
        b.category@ + seq!['_'] + b.uuid@ + seq!['_'],
        spec_variant_name(v2),
        '/',
    );
    lemma_no_char_concat(
        b.category@ + seq!['_'] + b.uuid@ + seq!['_'] + spec_variant_name(v2),
        seq!['.'],
        '/',
    );
    lemma_no_char_concat(
        b.category@ + seq!['_'] + b.uuid@ + seq!['_'] + spec_variant_name(v2) + seq!['.'],
        b.ext@,
        '/',
    );
    assert(spec_filename(b, v2) =~= b.category@ + seq!['_'] + b.uuid@ + seq!['_']
        + spec_variant_name(v2) + seq!['.'] + b.ext@);
}

impl Clone for ImagioImage {
    fn clone(&self) -> (r: Self)
        ensures
            r == *self,
    {
        ImagioImage {
            uuid: self.uuid.clone(),
            category: self.category.clone(),
            mime: self.mime.clone(),
            ext: self.ext.clone(),
        }
    }
}

impl ImagioImage {
    /// Builds a record from its parts, rejecting malformed MIME text
    /// with `DecodeError`; on success the extension is the canonical
    /// file extension of the MIME subtype, upper-cased (`image/jpeg`
    /// gives `JPG`).
    pub fn new(uuid: &str, category: &str, mime: &str) -> (r: Result<ImagioImage, ImagioError>)
        ensures
            match mime_subtype_of(mime@) {
                Some(t) => r matches Ok(img) && img.uuid@ == uuid@ && img.category@ == category@
                    && img.mime@ == mime@ && img.ext@ == spec_ext_of_subtype(t) && spec_image_wf(
                    img,
                ),
                None => r == Result::<ImagioImage, ImagioError>::Err(ImagioError::DecodeError),
            },
    {
        match parse_mime_subtype(mime) {
            Some(sub) => {
                let ext = if sub == String::from_str("jpeg") {
                    String::from_str("JPG")
                } else {
                    ascii_upper(sub.as_str())
                };
                Ok(
                    ImagioImage {
                        uuid: uuid.to_owned(),
                        category: category.to_owned(),
                        mime: mime.to_owned(),
                        ext,
                    },
                )
            },
            None => Err(ImagioError::DecodeError),
        }
    }

    /// The upper-cased extension used in storage keys.
    pub fn ext(&self) -> (r: String)
        ensures
            r@ == self.ext@,
    {
        self.ext.clone()
    }

    /// The storage key of this record for the given variant. For
    /// `Original` the key is `{category}/{uuid}.{EXT}`; for any other
    /// variant it is `{category}_{uuid}_{variant}.{EXT}`.
    pub fn filename(&self, variant: &Variant) -> (r: String)
        ensures
            r@ == spec_filename(*self, *variant),
    {
        let mut k = self.category.clone();
        match variant {
            Variant::Original => {
                k.append("/");
                k.append(self.uuid.as_str());
                k.append(".");
                k.append(self.ext.as_str());
            },
            v => {
                k.append("_");
                k.append(self.uuid.as_str());
                k.append("_");
                k.append(v.name());
                k.append(".");
                k.append(self.ext.as_str());
            },
        }
        proof {
            assert(k@ =~= spec_filename(*self, *variant));
        }
        k
    }
}

} // verus!
