//! Reading release archives: a zip archive, or a tar archive behind xz
//! compression, decoded into plain named entries. Decoding is pure
//! computation on the downloaded bytes, performed by outside codecs whose
//! results are named here; which entries the installer keeps is decided by
//! verified code.

use vstd::prelude::*;

use crate::strutil::spec_ends_with;
use crate::strutil::str_ends_with;
use crate::strutil::views_of;

verus! {

/// The mathematical content of an archive entry.
#[verifier::ext_equal]
pub struct ArchiveEntryView {
    pub name: Seq<char>,
    pub data: Seq<u8>,
}

/// A file carried by an archive: its path inside the archive and its bytes.
#[derive(Debug)]
pub struct ArchiveEntry {
    pub name: String,
    pub data: Vec<u8>,
}

impl View for ArchiveEntry {
    type V = ArchiveEntryView;

    open spec fn view(&self) -> ArchiveEntryView {
        ArchiveEntryView { name: self.name@, data: self.data@ }
    }
}

/// An entry of a tar archive: a path, its bytes, and whether it is a
/// regular file rather than a directory, link or other special entry.
#[derive(Debug)]
pub struct TarEntry {
    pub name: String,
    pub data: Vec<u8>,
    pub regular: bool,
}

/// The name-and-bytes pairs of a sequence of archive entries.
pub open spec fn entry_pairs(es: Seq<ArchiveEntryView>) -> Seq<(Seq<char>, Seq<u8>)> {
    Seq::new(es.len(), |i: int| (es[i].name, es[i].data))
}

/// What decoding these bytes as a zip archive yields: the entries in
/// archive order, or nothing when the bytes are not a valid zip archive.
/// A function of the bytes alone.
pub uninterp spec fn zip_entries_of(data: Seq<u8>) -> Option<Seq<(Seq<char>, Seq<u8>)>>;

/// What decompressing these bytes as an xz stream yields, or nothing when
/// they are not a valid stream. A function of the bytes alone.
pub uninterp spec fn xz_plain_of(data: Seq<u8>) -> Option<Seq<u8>>;

/// What decoding these bytes as a tar archive yields: for each entry its
/// path, bytes, and whether it is a regular file. A function of the bytes
/// alone.
pub uninterp spec fn tar_entries_of(data: Seq<u8>) -> Option<Seq<(Seq<char>, Seq<u8>, bool)>>;

/// Relies on `zip::ZipArchive`: decoding a zip archive from bytes is a
/// function of the bytes alone, succeeding or failing the same way every
/// time.
#[verifier::external_body]
fn zip_entries(data: &Vec<u8>) -> (r: Option<Vec<ArchiveEntry>>)
    ensures
        match r {
            Some(es) => zip_entries_of(data@) == Some(entry_pairs(views_of(es@))),
            None => zip_entries_of(data@) is None,
        },
{
    let cursor = std::io::Cursor::new(data.as_slice());
    let mut archive = zip::ZipArchive::new(cursor).ok()?;
    let mut out = Vec::new();
    for i in 0..archive.len() {
        let mut entry = archive.by_index(i).ok()?;
        let name = entry.name().to_string();
        let mut data = Vec::new();
        std::io::Read::read_to_end(&mut entry, &mut data).ok()?;
        out.push(ArchiveEntry { name, data });
    }
    Some(out)
}

/// Relies on `xz2::read::XzDecoder`: decompressing an xz stream is a
/// function of the bytes alone.
#[verifier::external_body]
fn xz_decompress(data: &Vec<u8>) -> (r: Option<Vec<u8>>)
    ensures
        match r {
            Some(plain) => xz_plain_of(data@) == Some(plain@),
            None => xz_plain_of(data@) is None,
        },
{
    let mut decoder = xz2::read::XzDecoder::new(data.as_slice());
    let mut out = Vec::new();
    std::io::Read::read_to_end(&mut decoder, &mut out).ok()?;
    Some(out)
}

/// Relies on `tar::Archive`: decoding a tar archive is a function of the
/// bytes alone; the `regular` flag of an entry is whether its header type
/// is a regular file.
#[verifier::external_body]
fn tar_entries(data: &Vec<u8>) -> (r: Option<Vec<TarEntry>>)
    ensures
        match r {
            Some(es) => tar_entries_of(data@) == Some(
                Seq::new(es@.len(), |i: int| (es@[i].name@, es@[i].data@, es@[i].regular)),
            ),
            None => tar_entries_of(data@) is None,
        },
{
    let mut archive = tar::Archive::new(std::io::Cursor::new(data.as_slice()));
    let mut out = Vec::new();
    for entry in archive.entries().ok()? {
        let mut entry = entry.ok()?;
        let name = entry.path().ok()?.to_str()?.to_string();
        let regular = entry.header().entry_type() == tar::EntryType::Regular;
        let mut data = Vec::new();
        std::io::Read::read_to_end(&mut entry, &mut data).ok()?;
        out.push(TarEntry { name, data, regular });
    }
    Some(out)
}

/// Whether a zip entry name denotes a directory rather than a file.
pub open spec fn spec_zip_is_dir(name: Seq<char>) -> bool {
    spec_ends_with(name, "/"@) || spec_ends_with(name, "\\"@)
}

/// The file entries among the first `i` zip entries, directories dropped.
pub open spec fn spec_zip_files(pairs: Seq<(Seq<char>, Seq<u8>)>, i: int) -> Seq<
    ArchiveEntryView,
>
    decreases i,
{
    if i <= 0 {
        Seq::empty()
    } else {
        let prev = spec_zip_files(pairs, i - 1);
        if spec_zip_is_dir(pairs[i - 1].0) {
            prev
        } else {
            prev.push(ArchiveEntryView { name: pairs[i - 1].0, data: pairs[i - 1].1 })
        }
    }
}

/// The regular-file entries among the first `i` tar entries.
pub open spec fn spec_tar_files(triples: Seq<(Seq<char>, Seq<u8>, bool)>, i: int) -> Seq<
    ArchiveEntryView,
>
    decreases i,
{
    if i <= 0 {
        Seq::empty()
    } else {
        let prev = spec_tar_files(triples, i - 1);
        if triples[i - 1].2 {
            prev.push(ArchiveEntryView { name: triples[i - 1].0, data: triples[i - 1].1 })
        } else {
            prev
        }
    }
}

/// What reading the named archive yields: the file entries of a zip
/// archive, or of an xz-compressed tar archive, chosen by the file name's
/// extension; an unrecognised extension or undecodable bytes fail.
pub open spec fn spec_read_archive(name: Seq<char>, data: Seq<u8>) -> Result<
    Seq<ArchiveEntryView>,
    Seq<char>,
> {
    if spec_ends_with(name, ".zip"@) {
        match zip_entries_of(data) {
            Option::None => Err("Error while reading .zip file"@),
            Option::Some(pairs) => Ok(spec_zip_files(pairs, pairs.len() as int)),
        }
    } else if spec_ends_with(name, ".tar.xz"@) {
        match xz_plain_of(data) {
            Option::None => Err("Failed to decompress data"@),
            Option::Some(plain) => match tar_entries_of(plain) {
                Option::None => Err("Error while reading .tar file"@),
                Option::Some(triples) => Ok(spec_tar_files(triples, triples.len() as int)),
            },
        }
    } else {
        Err("No decompression handler for "@ + name + "."@)
    }
}

/// Reads the named archive, handing back its file entries.
#[verifier::loop_isolation(false)]
pub fn read_archive(name: &str, data: &Vec<u8>) -> (r: Result<Vec<ArchiveEntry>, String>)
    ensures
        match r {
            Ok(es) => spec_read_archive(name@, data@) == Ok::<Seq<ArchiveEntryView>, Seq<char>>(
                views_of(es@),
            ),
            Err(e) => spec_read_archive(name@, data@) == Err::<Seq<ArchiveEntryView>, Seq<char>>(
                e@,
            ),
        },
{
    if str_ends_with(name, ".zip") {
        let entries = match zip_entries(data) {
            Option::Some(es) => es,
            Option::None => {
                return Err(String::from_str("Error while reading .zip file"));
            },
        };
        let ghost pairs = entry_pairs(views_of(entries@));
        let mut out: Vec<ArchiveEntry> = Vec::new();
        let mut i: usize = 0;
        while i < entries.len()
            invariant
                i <= entries@.len(),
                views_of(out@) =~= spec_zip_files(pairs, i as int),
            decreases entries@.len() - i,
        {
            proof {
                assert(pairs[i as int] == (entries@[i as int]@.name, entries@[i as int]@.data));
            }
            let e = &entries[i];
            if !(str_ends_with(e.name.as_str(), "/") || str_ends_with(e.name.as_str(), "\\")) {
                out.push(ArchiveEntry {
                    name: e.name.clone(),
                    data: crate::strutil::clone_bytes(&e.data),
                });
                proof {
                    assert(views_of(out@) =~= spec_zip_files(pairs, i as int + 1));
                }
            }
            i = i + 1;
        }
        Ok(out)
    } else if str_ends_with(name, ".tar.xz") {
        let plain = match xz_decompress(data) {
            Option::Some(p) => p,
            Option::None => {
                return Err(String::from_str("Failed to decompress data"));
            },
        };
        let entries = match tar_entries(&plain) {
            Option::Some(es) => es,
            Option::None => {
                return Err(String::from_str("Error while reading .tar file"));
            },
        };
        let ghost triples = Seq::new(
            entries@.len(),
            |i: int| (entries@[i].name@, entries@[i].data@, entries@[i].regular),
        );
        let mut out: Vec<ArchiveEntry> = Vec::new();
        let mut i: usize = 0;
        while i < entries.len()
            invariant
                i <= entries@.len(),
                views_of(out@) =~= spec_tar_files(triples, i as int),
            decreases entries@.len() - i,
        {
            proof {
                assert(triples[i as int] == (
                    entries@[i as int].name@,
                    entries@[i as int].data@,
                    entries@[i as int].regular,
                ));
            }
            let e = &entries[i];
            if e.regular {
                out.push(ArchiveEntry {
                    name: e.name.clone(),
                    data: crate::strutil::clone_bytes(&e.data),
                });
                proof {
                    assert(views_of(out@) =~= spec_tar_files(triples, i as int + 1));
                }
            }
            i = i + 1;
        }
        Ok(out)
    } else {
        let mut e = String::from_str("No decompression handler for ");
        e.append(name);
        e.append(".");
        Err(e)
    }
}

} // verus!
