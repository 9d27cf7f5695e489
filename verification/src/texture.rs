//! Finding the texture files to load and sizing their staging buffers.

use vstd::prelude::*;
use vstd::string::*;

verus! {

broadcast use vstd::seq_lib::group_to_multiset_ensures;

/// A directory entry as the application read it: its path, whether it is a
/// regular file, and the extension of its file name, if it has one.
pub struct TextureCandidate {
    pub path: String,
    pub is_file: bool,
    pub extension: Option<String>,
}

/// Why no texture list could be produced.
#[derive(Debug)]
pub enum TextureError {
    /// The directory (named here) holds no texture file.
    NoTexturesFound(String),
}

/// The code of `c` after ASCII lowercasing: `A`..`Z` become `a`..`z`, every
/// other character stays.
pub open spec fn lower_code(c: char) -> u32 {
    if 65 <= (c as u32) <= 90 {
        ((c as u32) + 32) as u32
    } else {
        c as u32
    }
}

/// `s`, lowercased in ASCII, equals `target`.
pub open spec fn ascii_lowercase_is(s: Seq<char>, target: Seq<char>) -> bool {
    &&& s.len() == target.len()
    &&& forall|i: int| 0 <= i < s.len() ==> lower_code(#[trigger] s[i]) == target[i] as u32
}

/// The extensions of image files the renderer loads, in any letter case.
pub open spec fn is_texture_extension_spec(extension: Seq<char>) -> bool {
    ||| ascii_lowercase_is(extension, seq!['j', 'p', 'g'])
    ||| ascii_lowercase_is(extension, seq!['j', 'p', 'e', 'g'])
    ||| ascii_lowercase_is(extension, seq!['p', 'n', 'g'])
}

/// A candidate is loaded when it is a regular file with a texture extension.
pub open spec fn is_texture_candidate(candidate: TextureCandidate) -> bool {
    &&& candidate.is_file
    &&& match candidate.extension {
        Some(extension) => is_texture_extension_spec(extension@),
        None => false,
    }
}

/// The paths of the candidates that are textures, in candidate order.
pub open spec fn texture_paths_of(candidates: Seq<TextureCandidate>) -> Seq<String>
    decreases candidates.len(),
{
    if candidates.len() == 0 {
        Seq::empty()
    } else {
        let rest = texture_paths_of(candidates.drop_last());
        if is_texture_candidate(candidates.last()) {
            rest.push(candidates.last().path)
        } else {
            rest
        }
    }
}

/// Lexicographic order of character sequences by code point; on UTF-8
/// strings it is the order of their bytes, which is how `String` compares.
pub open spec fn chars_le(a: Seq<char>, b: Seq<char>) -> bool
    decreases a.len(),
{
    if a.len() == 0 {
        true
    } else if b.len() == 0 {
        false
    } else if (a[0] as u32) < (b[0] as u32) {
        true
    } else if (a[0] as u32) > (b[0] as u32) {
        false
    } else {
        chars_le(a.drop_first(), b.drop_first())
    }
}

/// The strings are in nondecreasing order.
pub open spec fn sorted_strings(s: Seq<String>) -> bool {
    forall|i: int, j: int| 0 <= i < j < s.len() ==> chars_le(#[trigger] s[i]@, #[trigger] s[j]@)
}

/// Any two character sequences are ordered one way or the other.
pub proof fn lemma_chars_le_total(a: Seq<char>, b: Seq<char>)
    ensures
        chars_le(a, b) || chars_le(b, a),
    decreases a.len(),
{
    if a.len() > 0 && b.len() > 0 && (a[0] as u32) == (b[0] as u32) {
        lemma_chars_le_total(a.drop_first(), b.drop_first());
    }
}

/// The order is transitive.
pub proof fn lemma_chars_le_transitive(a: Seq<char>, b: Seq<char>, c: Seq<char>)
    requires
        chars_le(a, b),
        chars_le(b, c),
    ensures
        chars_le(a, c),
    decreases a.len(),
{
    if a.len() > 0 && b.len() > 0 && c.len() > 0 && (a[0] as u32) == (b[0] as u32) && (b[0] as u32)
        == (c[0] as u32) {
        lemma_chars_le_transitive(a.drop_first(), b.drop_first(), c.drop_first());
    }
}

fn lower_code_exec(c: char) -> (r: u32)
    ensures
        r == lower_code(c),
{
    let code = c as u32;
    if 65 <= code && code <= 90 {
        code + 32
    } else {
        code
    }
}

/// Whether `s` lowercased in ASCII equals `target`.
fn ascii_lowercase_equals(s: &str, target: &str) -> (r: bool)
    ensures
        r == ascii_lowercase_is(s@, target@),
{
    let n = s.unicode_len();
    if n != target.unicode_len() {
        return false;
    }
    let mut i: usize = 0;
    while i < n
        invariant
            n == s@.len(),
            n == target@.len(),
            i <= n,
            forall|j: int| 0 <= j < i ==> lower_code(#[trigger] s@[j]) == target@[j] as u32,
        decreases n - i,
    {
        if lower_code_exec(s.get_char(i)) != target.get_char(i) as u32 {
            return false;
        }
        i += 1;
    }
    true
}

/// Whether a file extension names an image format the renderer loads
/// (`jpg`, `jpeg` or `png`, in any letter case).
pub fn is_texture_extension(extension: &str) -> (r: bool)
    ensures
        r == is_texture_extension_spec(extension@),
{
    proof {
        reveal_strlit("jpg");
        reveal_strlit("jpeg");
        reveal_strlit("png");
    }
    let jpg = "jpg";
    let jpeg = "jpeg";
    let png = "png";
    assert(jpg@ =~= seq!['j', 'p', 'g']);
    assert(jpeg@ =~= seq!['j', 'p', 'e', 'g']);
    assert(png@ =~= seq!['p', 'n', 'g']);
    ascii_lowercase_equals(extension, jpg) || ascii_lowercase_equals(extension, jpeg)
        || ascii_lowercase_equals(extension, png)
}

/// Whether `a` sorts before or equal to `b`.
pub fn str_le(a: &str, b: &str) -> (r: bool)
    ensures
        r == chars_le(a@, b@),
{
    let na = a.unicode_len();
    let nb = b.unicode_len();
    let mut i: usize = 0;
    assert(a@.skip(0) =~= a@);
    assert(b@.skip(0) =~= b@);
    while i < na && i < nb
        invariant
            na == a@.len(),
            nb == b@.len(),
            i <= na,
            i <= nb,
            chars_le(a@, b@) == chars_le(a@.skip(i as int), b@.skip(i as int)),
        decreases na - i,
    {
        let ca = a.get_char(i) as u32;
        let cb = b.get_char(i) as u32;
        if ca < cb {
            return true;
        }
        if ca > cb {
            return false;
        }
        assert(a@.skip(i as int).drop_first() =~= a@.skip(i + 1));
        assert(b@.skip(i as int).drop_first() =~= b@.skip(i + 1));
        i += 1;
    }
    i == na
}

/// Inserts `s` into the sorted `sorted` after every element that sorts
/// before or equal to it.
fn insert_sorted(sorted: &mut Vec<String>, s: String)
    requires
        sorted_strings(old(sorted)@),
    ensures
        sorted_strings(final(sorted)@),
        final(sorted)@.to_multiset() == old(sorted)@.to_multiset().insert(s),
{
    let mut pos: usize = 0;
    while pos < sorted.len() && str_le(sorted[pos].as_str(), s.as_str())
        invariant
            pos <= sorted.len(),
            sorted_strings(sorted@),
            forall|k: int| 0 <= k < pos ==> chars_le(#[trigger] sorted@[k]@, s@),
        decreases sorted.len() - pos,
    {
        pos += 1;
    }
    let ghost before = sorted@;
    proof {
        if pos < before.len() {
            assert(!chars_le(before[pos as int]@, s@));
            lemma_chars_le_total(before[pos as int]@, s@);
            assert forall|k: int| pos <= k < before.len() implies chars_le(s@, #[trigger] before[k]@) by {
                if k > pos {
                    lemma_chars_le_total(before[k]@, s@);
                    if chars_le(before[k]@, s@) {
                        lemma_chars_le_transitive(before[pos as int]@, before[k]@, s@);
                    }
                }
            }
        }
    }
    sorted.insert(pos, s);
    proof {
        let after = sorted@;
        assert(after =~= before.insert(pos as int, s));
        assert forall|i: int, j: int| 0 <= i < j < after.len() implies chars_le(
            #[trigger] after[i]@,
            #[trigger] after[j]@,
        ) by {
            if j < pos {
            } else if j == pos {
            } else if i < pos {
                assert(after[j] == before[j - 1]);
                lemma_chars_le_transitive(before[i]@, s@, before[j - 1]@);
            } else if i == pos {
                assert(after[j] == before[j - 1]);
            } else {
                assert(after[i] == before[i - 1]);
                assert(after[j] == before[j - 1]);
            }
        }
    }
}

/// The texture files among the entries of `texture_directory`: the paths of
/// the regular files whose extension is `jpg`, `jpeg` or `png` in any letter
/// case, sorted; an error when there is none.
pub fn select_texture_paths(candidates: &Vec<TextureCandidate>, texture_directory: &str) -> (r: Result<
    Vec<String>,
    TextureError,
>)
    ensures
        match r {
            Ok(paths) => {
                &&& paths.len() > 0
                &&& sorted_strings(paths@)
                &&& paths@.to_multiset() == texture_paths_of(candidates@).to_multiset()
            },
            Err(TextureError::NoTexturesFound(directory)) => {
                &&& texture_paths_of(candidates@).len() == 0
                &&& directory@ == texture_directory@
            },
        },
{
    let mut texture_paths: Vec<String> = Vec::new();
    let mut i: usize = 0;
    while i < candidates.len()
        invariant
            i <= candidates.len(),
            sorted_strings(texture_paths@),
            texture_paths@.to_multiset() == texture_paths_of(candidates@.take(i as int)).to_multiset(),
        decreases candidates.len() - i,
    {
        let candidate = &candidates[i];
        let keep = match &candidate.extension {
            Some(extension) => candidate.is_file && is_texture_extension(extension.as_str()),
            None => false,
        };
        assert(candidates@.take(i + 1).drop_last() =~= candidates@.take(i as int));
        if keep {
            insert_sorted(&mut texture_paths, candidate.path.clone());
        }
        i += 1;
    }
    assert(candidates@.take(candidates.len() as int) =~= candidates@);
    if texture_paths.len() == 0 {
        proof {
            assert(texture_paths@.to_multiset().len() == 0);
        }
        return Err(TextureError::NoTexturesFound(String::from_str(texture_directory)));
    }
    Ok(texture_paths)
}

/// Two sequences that each sort before or equal to the other are equal.
pub proof fn lemma_chars_le_antisymmetric(a: Seq<char>, b: Seq<char>)
    requires
        chars_le(a, b),
        chars_le(b, a),
    ensures
        a == b,
    decreases a.len(),
{
    if a.len() > 0 && b.len() > 0 {
        lemma_chars_le_antisymmetric(a.drop_first(), b.drop_first());
        assert(a[0] as u32 == b[0] as u32);
        vstd::utf8::char_u32_cast(a[0], a[0] as u32);
        vstd::utf8::char_u32_cast(b[0], b[0] as u32);
        assert(a[0] == b[0]);
        assert(a =~= seq![a[0]] + a.drop_first());
        assert(b =~= seq![b[0]] + b.drop_first());
    } else {
        assert(a.len() == 0 && b.len() == 0);
        assert(a =~= b);
    }
}

/// The texts of a sequence of strings.
pub open spec fn texts(s: Seq<String>) -> Seq<Seq<char>> {
    s.map_values(|x: String| x@)
}

/// Sorting fixes the result: two sorted sequences holding the same strings
/// have the same texts in the same order.  So the texture list does not
/// depend on the order in which the directory lists its entries: any two
/// results of `select_texture_paths` whose candidates hold the same texture
/// paths are the same list of texts.
pub proof fn lemma_sorted_permutations_agree(a: Seq<String>, b: Seq<String>)
    requires
        sorted_strings(a),
        sorted_strings(b),
        a.to_multiset() == b.to_multiset(),
    ensures
        texts(a) == texts(b),
    decreases a.len(),
{
    if a.len() == 0 {
        assert(b.to_multiset().len() == 0);
        assert(texts(a) =~= texts(b));
    } else {
        let x = a[0];
        assert(a.contains(x));
        assert(b.to_multiset().count(x) > 0);
        assert(b.contains(x));
        let k = choose|k: int| 0 <= k < b.len() && b[k] == x;
        let y = b[0];
        assert(b.contains(y));
        assert(a.to_multiset().count(y) > 0);
        assert(a.contains(y));
        let j = choose|j: int| 0 <= j < a.len() && a[j] == y;
        if j > 0 {
            assert(chars_le(a[0]@, a[j]@));
        }
        if k > 0 {
            assert(chars_le(b[0]@, b[k]@));
        }
        lemma_chars_le_total(x@, x@);
        lemma_chars_le_antisymmetric(x@, y@);
        assert(a.len() == b.len()) by {
            assert(a.to_multiset().len() == a.len());
            assert(b.to_multiset().len() == b.len());
        }
        let a2 = a.remove(0);
        let b2 = b.remove(k);
        assert(a2.to_multiset() == a.to_multiset().remove(x));
        assert(b2.to_multiset() == b.to_multiset().remove(x));
        assert forall|i: int, l: int| 0 <= i < l < a2.len() implies chars_le(
            #[trigger] a2[i]@,
            #[trigger] a2[l]@,
        ) by {
            assert(a2[i] == a[i + 1] && a2[l] == a[l + 1]);
        }
        assert forall|i: int, l: int| 0 <= i < l < b2.len() implies chars_le(
            #[trigger] b2[i]@,
            #[trigger] b2[l]@,
        ) by {
            let bi = if i < k {
                i
            } else {
                i + 1
            };
            let bl = if l < k {
                l
            } else {
                l + 1
            };
            assert(b2[i] == b[bi] && b2[l] == b[bl]);
        }
        lemma_sorted_permutations_agree(a2, b2);
        assert forall|i: int| 0 <= i <= k implies #[trigger] b[i]@ == x@ by {
            if 0 < i {
                assert(chars_le(b[0]@, b[i]@));
            }
            if i < k {
                assert(chars_le(b[i]@, b[k]@));
            }
            lemma_chars_le_total(x@, x@);
            lemma_chars_le_antisymmetric(b[i]@, x@);
        }
        assert forall|i: int| 0 <= i < a.len() implies #[trigger] a[i]@ == b[i]@ by {
            if i > 0 {
                assert(a[i] == a2[i - 1]);
                assert(texts(a2)[i - 1] == texts(b2)[i - 1]);
                assert(texts(a2)[i - 1] == a2[i - 1]@);
                assert(texts(b2)[i - 1] == b2[i - 1]@);
                if i <= k {
                    assert(b2[i - 1] == b[i - 1]);
                } else {
                    assert(b2[i - 1] == b[i]);
                }
            }
        }
        assert(texts(a) =~= texts(b));
    }
}

/// What decoding a texture file yields: its width, its height and its pixels
/// as RGBA8 bytes, row by row from the bottom row of the file's image up to
/// the top row; `None` when the extension names no image format the
/// renderer's image decoder supports, or the bytes do not decode in that
/// format.
pub uninterp spec fn decoded_texture(encoded: Seq<u8>, extension: Seq<char>) -> Option<(u32, u32, Seq<u8>)>;

/// Decodes a texture file with the `image` crate, as `image::open` does for a
/// file with this extension: `ImageFormat::from_extension`, then
/// `image::load_from_memory_with_format`, then `DynamicImage::flipv`, the
/// image's dimensions and `to_rgba8().into_raw()`.  Claims only that the
/// result is `decoded_texture` of the arguments, a function of the bytes and
/// the extension alone; nothing is claimed of the pixels themselves.
#[verifier::external_body]
fn decode_texture(encoded: &[u8], extension: &str) -> (r: Option<(u32, u32, Vec<u8>)>)
    ensures
        match r {
            Some((width, height, pixels)) => decoded_texture(encoded@, extension@) == Some(
                (width, height, pixels@),
            ),
            None => decoded_texture(encoded@, extension@) is None,
        },
{
    let format = image::ImageFormat::from_extension(extension)?;
    let decoded = image::load_from_memory_with_format(encoded, format).ok()?.flipv();
    let (width, height) = image::GenericImageView::dimensions(&decoded);
    Some((width, height, decoded.to_rgba8().into_raw()))
}

/// The byte size of the staging buffer for an RGBA8 texture: `width * height
/// * 4`, when that fits in `u32` and the pixels are exactly that many bytes;
/// `None` otherwise.
pub fn texture_upload_size(width: u32, height: u32, pixels: &Vec<u8>) -> (r: Option<u64>)
    ensures
        r == if width * height * 4 <= u32::MAX && pixels.len() == width * height * 4 {
            Some((width * height * 4) as u64)
        } else {
            None
        },
{
    proof {
        vstd::arithmetic::mul::lemma_mul_nonnegative(width as int, height as int);
    }
    match width.checked_mul(height) {
        Some(area) => match area.checked_mul(4) {
            Some(size) => {
                if pixels.len() == size as usize {
                    Some(size as u64)
                } else {
                    None
                }
            },
            None => None,
        },
        None => {
            proof {
                if width * height * 4 <= u32::MAX {
                    assert(width * height <= width * height * 4);
                }
            }
            None
        },
    }
}

/// A decoded texture ready for upload: its size, its RGBA8 pixels and the
/// byte size of its staging buffer, which is exactly the pixels' length.
pub struct TextureImage {
    pub width: u32,
    pub height: u32,
    pub pixels: Vec<u8>,
    pub size: u64,
}

/// Decodes the bytes of a texture file and sizes its staging buffer: `Some`
/// exactly when the file decodes and its pixels fill `width * height * 4`
/// bytes, which fit in `u32`.
pub fn load_texture(encoded: &[u8], extension: &str) -> (r: Option<TextureImage>)
    ensures
        match r {
            Some(texture) => {
                &&& decoded_texture(encoded@, extension@) == Some(
                    (texture.width, texture.height, texture.pixels@),
                )
                &&& texture.width * texture.height * 4 <= u32::MAX
                &&& texture.pixels.len() == texture.width * texture.height * 4
                &&& texture.size == texture.width * texture.height * 4
            },
            None => match decoded_texture(encoded@, extension@) {
                Some((width, height, pixels)) => !(width * height * 4 <= u32::MAX && pixels.len()
                    == width * height * 4),
                None => true,
            },
        },
{
    match decode_texture(encoded, extension) {
        Some((width, height, pixels)) => match texture_upload_size(width, height, &pixels) {
            Some(size) => Some(TextureImage { width, height, pixels, size }),
            None => None,
        },
        None => None,
    }
}

} // verus!
