//! Compressed data, read with `flate2`, `lzma_rs` and `zip`. Each function
//! here hands bytes to one of these crates and says of the result only that
//! it depends on the bytes alone.

use std::io::Read;
use vstd::prelude::*;
use vstd::string::*;
use crate::text::{chars_of, includes_at, starts_with};

verus! {

/// `zip::ZipArchive`, an archive opened for reading. Nothing of its inside
/// is known here; `zip_entries` names what it holds.
#[verifier::external_type_specification]
#[verifier::external_body]
#[verifier::reject_recursive_types(R)]
pub struct ExZipArchive<R>(zip::ZipArchive<R>);

/// `std::io::Cursor`, the reader over bytes in memory from which an archive
/// is opened. It is only carried along.
#[verifier::external_type_specification]
#[verifier::external_body]
#[verifier::reject_recursive_types(T)]
pub struct ExCursor<T>(std::io::Cursor<T>);

/// One entry of a zip archive, read in full.
#[derive(Clone, Debug, PartialEq, Eq)]
pub struct ZipEntry {
    /// The entry's name as the archive gives it, with `/` between its
    /// parts; the name of a directory ends in `/`.
    pub name: String,
    /// The entry's Unix permission bits, where the archive holds any.
    pub unix_mode: Option<u32>,
    /// The entry's content, decompressed.
    pub data: Vec<u8>,
}

/// The value of an entry.
pub struct ZipEntryView {
    pub name: Seq<char>,
    pub unix_mode: Option<u32>,
    pub data: Seq<u8>,
}

impl View for ZipEntry {
    type V = ZipEntryView;

    open spec fn view(&self) -> ZipEntryView {
        ZipEntryView { name: self.name@, unix_mode: self.unix_mode, data: self.data@ }
    }
}

/// What the first gzip member of `bytes` holds, and nothing where `bytes`
/// do not start with a sound gzip member.
pub uninterp spec fn gzip_decoded(bytes: Seq<u8>) -> Option<Seq<u8>>;

/// What the XZ stream `bytes` holds, and nothing where the decoder gives
/// no content for `bytes`: where they are no sound XZ stream, or where the
/// decoder's arithmetic overflows on them.
pub uninterp spec fn xz_decoded(bytes: Seq<u8>) -> Option<Seq<u8>>;

/// Where the XZ decoder stands once it has read exactly `prefix` of its
/// input: the size in bytes of the index that it has read, where it has
/// then come to the size field of the stream footer, and nothing where it
/// has not. It has come there when `prefix` is made up of a stream header,
/// blocks and an index, each of which passed its checks, and the four
/// bytes of the footer's checksum field.
pub uninterp spec fn xz_index_before(prefix: Seq<u8>) -> Option<nat>;

/// The entries of the zip archive `bytes`, in the order of its central
/// directory, and nothing where `bytes` are no zip archive. An entry that
/// cannot be read stands as `None`.
pub uninterp spec fn zip_listing(bytes: Seq<u8>) -> Option<Seq<Option<ZipEntryView>>>;

/// The entries that an open archive holds.
pub uninterp spec fn zip_entries(archive: zip::ZipArchive<std::io::Cursor<Vec<u8>>>) -> Seq<
    Option<ZipEntryView>,
>;

/// `flate2::read::GzDecoder` over `bytes`, read to its end: the content of
/// the first gzip member, or the text of the error that reading gave.
#[verifier::external_body]
pub(crate) fn gunzip(bytes: &Vec<u8>) -> (data: Result<Vec<u8>, String>)
    ensures
        match data {
            Ok(content) => gzip_decoded(bytes@) == Some(content@),
            Err(_) => gzip_decoded(bytes@) is None,
        },
{
    let mut content = Vec::new();
    match flate2::read::GzDecoder::new(&bytes[..]).read_to_end(&mut content) {
        Ok(_) => Ok(content),
        Err(e) => Err(e.to_string()),
    }
}

/// Whether four bytes `0xFF` stand in `bytes` from index `i` on.
pub open spec fn ff_run_at(bytes: Seq<u8>, i: int) -> bool {
    0 <= i && i + 4 <= bytes.len() && bytes[i] == 0xff && bytes[i + 1] == 0xff && bytes[i + 2]
        == 0xff && bytes[i + 3] == 0xff
}

/// The number that the four bytes of `bytes` from index `at` on stand for,
/// the lowest byte first.
pub open spec fn word_at(bytes: Seq<u8>, at: int) -> int {
    bytes[at] + 256 * bytes[at + 1] + 65536 * bytes[at + 2] + 16777216 * bytes[at + 3]
}

/// Whether the decoder can be given `bytes`: wherever four bytes `0xFF`
/// stand in a row, the decoder does not read them as the size field of the
/// stream footer.
pub open spec fn xz_safe(bytes: Seq<u8>) -> bool {
    forall|w: int| #[trigger] ff_run_at(bytes, w) ==> xz_index_before(bytes.take(w)) is None
}

/// Whether the decoder's arithmetic overflows on `bytes`: it comes to a
/// stream footer whose size field holds four bytes `0xFF`.
pub open spec fn xz_overflows(bytes: Seq<u8>) -> bool {
    exists|w: int| #[trigger] ff_run_at(bytes, w) && xz_index_before(bytes.take(w)) is Some
}

/// Whether the text of a decoder's error says that the size field of the
/// stream footer does not fit the size of the index.
pub open spec fn reports_index_size(text: Seq<char>) -> bool {
    starts_with(text, "xz error: Invalid index size"@)
}

/// Whether a decoding ended in the error of a size field that does not fit.
pub open spec fn index_size_reported(result: Result<Vec<u8>, String>) -> bool {
    result matches Err(text) && reports_index_size(text@)
}

/// Whether a decoding of `bytes` that read `read` bytes ended as it must
/// where the decoder came to a size field that does not fit the index: the
/// size of the index and four times the field plus one differ in their
/// lowest 32 bits. Such a decoding ends right behind the field, in the
/// error of a size that does not fit.
pub open spec fn stops_at_unfit_field(bytes: Seq<u8>, reported: bool, read: int) -> bool {
    forall|w: int|
        0 <= w && w + 4 <= bytes.len() && unfit(
            #[trigger] xz_index_before(bytes.take(w)),
            word_at(bytes, w),
        ) ==> reported && read == w + 4
}

/// Whether the decoder stands at a size field, and the size of the index
/// and four times `field` plus one differ in their lowest 32 bits.
pub open spec fn unfit(index: Option<nat>, field: int) -> bool {
    match index {
        Some(size) => size % 0x1_0000_0000 != ((field + 1) * 4) % 0x1_0000_0000,
        None => false,
    }
}

/// `lzma_rs::xz_decompress` from `bytes` into memory: the content of the
/// stream, or the text of the crate's error; and the number of bytes that
/// the decoder has left unread.
///
/// The decoder reads the size field of the stream footer as a 32-bit
/// number and adds one to it; where the field holds four bytes `0xFF` the
/// addition overflows, and a build that checks overflow panics. Input on
/// which the decoder comes to such a field is left out. The decoder reads
/// its input from front to back, so whether it comes to the field after a
/// given stretch is decided by that stretch alone.
///
/// What is claimed beyond the result: a size field that does not fit the
/// index (the index size and four times the field plus one differ in
/// their lowest 32 bits) ends the decoding right behind the field, with
/// the error `Invalid index size`; only the check of that field gives this
/// error; and input that holds four bytes `0xFF` at such a field gives no
/// content.
#[verifier::external_body]
pub(crate) fn unxz(bytes: &Vec<u8>) -> (out: (Result<Vec<u8>, String>, usize))
    requires
        xz_safe(bytes@),
    ensures
        out.1 <= bytes.len(),
        match out.0 {
            Ok(content) => xz_decoded(bytes@) == Some(content@),
            Err(_) => xz_decoded(bytes@) is None,
        },
        stops_at_unfit_field(bytes@, index_size_reported(out.0), bytes.len() - out.1),
        index_size_reported(out.0) ==> out.1 + 4 <= bytes.len() && xz_index_before(
            bytes@.take(bytes.len() - out.1 - 4),
        ) is Some,
        index_size_reported(out.0) ==> forall|other: Seq<u8>|
            other.take(bytes.len() - out.1 - 4) == bytes@.take(bytes.len() - out.1 - 4)
                && ff_run_at(other, bytes.len() - out.1 - 4) ==> (#[trigger] xz_decoded(other))
                is None,
{
    let mut rest: &[u8] = &bytes[..];
    let mut content = Vec::new();
    let result = match lzma_rs::xz_decompress(&mut rest, &mut content) {
        Ok(()) => Ok(content),
        Err(e) => Err(e.to_string()),
    };
    (result, rest.len())
}

fn is_ff_at(bytes: &Vec<u8>, at: usize) -> (r: bool)
    ensures
        r == ff_run_at(bytes@, at as int),
{
    bytes.len() >= 4 && at <= bytes.len() - 4 && bytes[at] == 0xff && bytes[at + 1] == 0xff
        && bytes[at + 2] == 0xff && bytes[at + 3] == 0xff
}

fn says_index_size(text: &str) -> (r: bool)
    ensures
        r == reports_index_size(text@),
{
    let t = chars_of(text);
    let p = chars_of("xz error: Invalid index size");
    includes_at(&t, &p, 0)
}

/// Whether the decoder, given the first `w` of `bytes` and then a size
/// field of the value `field`, ends right behind that field with the error
/// of a size that does not fit.
fn probe_with(bytes: &Vec<u8>, w: usize, field: u8) -> (hit: bool)
    requires
        w <= bytes.len(),
        w <= usize::MAX - 4,
        field < 0xff,
        forall|k: int| 0 <= k < w && ff_run_at(bytes@, k) ==> xz_index_before(bytes@.take(k)) is None,
    ensures
        hit ==> xz_index_before(bytes@.take(w as int)) is Some,
        hit && ff_run_at(bytes@, w as int) ==> xz_decoded(bytes@) is None,
        !hit ==> (xz_index_before(bytes@.take(w as int)) matches Some(size) ==> size
            % 0x1_0000_0000 == ((field + 1) * 4) % 0x1_0000_0000),
{
    let mut probe: Vec<u8> = Vec::new();
    let mut i: usize = 0;
    while i < w
        invariant
            i <= w <= bytes.len(),
            probe@ == bytes@.take(i as int),
        decreases w - i,
    {
        probe.push(bytes[i]);
        assert(probe@ =~= bytes@.take(i + 1));
        i += 1;
    }
    probe.push(field);
    probe.push(0);
    probe.push(0);
    probe.push(0);
    assert(probe@.take(w as int) =~= bytes@.take(w as int));
    assert(word_at(probe@, w as int) == field);
    assert forall|k: int| #[trigger] ff_run_at(probe@, k) implies xz_index_before(probe@.take(k))
        is None by {
        // A run in the probe lies before the field, where the probe is the input.
        assert(k + 4 <= w);
        assert(ff_run_at(bytes@, k));
        assert(probe@.take(k) =~= bytes@.take(k));
    }
    let (result, left) = unxz(&probe);
    match &result {
        Err(text) => {
            if says_index_size(text.as_str()) && left == 0 {
                assert(index_size_reported(result));
                assert(probe@.take(probe.len() - left - 4) =~= bytes@.take(w as int));
                true
            } else {
                false
            }
        },
        Ok(_) => false,
    }
}

/// The text of the error for XZ data on which the decoder's arithmetic
/// would overflow.
pub open spec fn xz_refusal() -> Seq<char> {
    "xz error: the size field of the stream footer is out of range"@
}

/// What the XZ stream `bytes` holds once it is decompressed, or the text
/// of the error. The decoder is given the data only where its arithmetic
/// cannot overflow: wherever four bytes `0xFF` stand in a row, it is first
/// asked, on the data before them, whether it would read them as the size
/// field of the stream footer. Where it would, the data is no sound stream
/// and the error is the text of `xz_refusal`.
pub fn decode_xz(bytes: &Vec<u8>) -> (data: Result<Vec<u8>, String>)
    ensures
        match data {
            Ok(content) => xz_decoded(bytes@) == Some(content@),
            Err(why) => xz_decoded(bytes@) is None && (xz_overflows(bytes@) ==> why@
                == xz_refusal()),
        },
{
    let mut w: usize = 0;
    while bytes.len() >= 4 && w <= bytes.len() - 4
        invariant
            bytes.len() >= 4 ==> w <= bytes.len() - 3,
            forall|k: int|
                0 <= k < w && ff_run_at(bytes@, k) ==> xz_index_before(bytes@.take(k)) is None,
        decreases bytes.len() - w,
    {
        if is_ff_at(bytes, w) {
            let first = probe_with(bytes, w, 0);
            let second = probe_with(bytes, w, 1);
            if first || second {
                assert(ff_run_at(bytes@, w as int) && xz_index_before(bytes@.take(w as int))
                    is Some);
                return Err(
                    String::from_str(
                        "xz error: the size field of the stream footer is out of range",
                    ),
                );
            }
            assert(xz_index_before(bytes@.take(w as int)) is None);
        }
        w += 1;
    }
    assert(xz_safe(bytes@));
    assert(!xz_overflows(bytes@));
    let (result, _) = unxz(bytes);
    result
}

/// `zip::ZipArchive::new` over `bytes`: the open archive, or the text of
/// the crate's error where the central directory cannot be read.
#[verifier::external_body]
pub(crate) fn zip_open(bytes: Vec<u8>) -> (opened: Result<
    zip::ZipArchive<std::io::Cursor<Vec<u8>>>,
    String,
>)
    ensures
        match opened {
            Ok(archive) => zip_listing(bytes@) == Some(zip_entries(archive)),
            Err(_) => zip_listing(bytes@) is None,
        },
{
    match zip::ZipArchive::new(std::io::Cursor::new(bytes)) {
        Ok(archive) => Ok(archive),
        Err(e) => Err(e.to_string()),
    }
}

/// `ZipArchive::len`: the number of entries in the central directory.
#[verifier::external_body]
pub(crate) fn zip_len(archive: &zip::ZipArchive<std::io::Cursor<Vec<u8>>>) -> (n: usize)
    ensures
        n == zip_entries(*archive).len(),
{
    archive.len()
}

/// `ZipArchive::by_index`, then the entry's `name`, `unix_mode` and its
/// content read to the end: the entry at `index`, or the text of the first
/// error on the way. Reading an entry leaves what the archive holds as it
/// was.
#[verifier::external_body]
pub(crate) fn zip_entry(archive: &mut zip::ZipArchive<std::io::Cursor<Vec<u8>>>, index: usize) -> (entry:
    Result<ZipEntry, String>)
    requires
        index < zip_entries(*old(archive)).len(),
    ensures
        zip_entries(*final(archive)) == zip_entries(*old(archive)),
        match entry {
            Ok(e) => zip_entries(*old(archive))[index as int] == Some(e@),
            Err(_) => zip_entries(*old(archive))[index as int] is None,
        },
{
    let mut file = archive.by_index(index).map_err(|e| e.to_string())?;
    let name = file.name().map_err(|e| e.to_string())?.into_owned();
    let unix_mode = file.unix_mode();
    let mut data = Vec::new();
    file.read_to_end(&mut data).map_err(|e| e.to_string())?;
    Ok(ZipEntry { name, unix_mode, data })
}

} // verus!
