//! Selecting the image files out of a remote folder listing. An entry is
//! taken when it is a plain file, its name ends in one of the accepted image
//! suffixes (case-sensitive), and the listing gave it a lowercased path.
//! Names and paths are byte strings: the accepted suffixes are ASCII, so the
//! byte-level suffix test agrees with the character-level one.

use vstd::prelude::*;

verus! {

/// One entry of the remote folder listing, reduced to what the selection
/// reads: the file name, the lowercased path (absent for some entries), and
/// whether the entry is a plain file rather than a folder or a deletion.
pub struct FileEntry {
    pub name: Vec<u8>,
    pub path_lower: Option<Vec<u8>>,
    pub is_file: bool,
}

/// `s` ends in `suffix`.
pub open spec fn has_suffix(s: Seq<u8>, suffix: Seq<u8>) -> bool {
    &&& suffix.len() <= s.len()
    &&& s.subrange(s.len() - suffix.len(), s.len() as int) == suffix
}

/// The bytes of ".jpg".
pub open spec fn jpg_suffix() -> Seq<u8> {
    seq![46u8, 106u8, 112u8, 103u8]
}

/// The bytes of ".jpeg".
pub open spec fn jpeg_suffix() -> Seq<u8> {
    seq![46u8, 106u8, 112u8, 101u8, 103u8]
}

/// The bytes of ".png".
pub open spec fn png_suffix() -> Seq<u8> {
    seq![46u8, 112u8, 110u8, 103u8]
}

/// The name ends in one of the accepted image suffixes, byte for byte.
pub open spec fn is_image_name(name: Seq<u8>) -> bool {
    ||| has_suffix(name, jpg_suffix())
    ||| has_suffix(name, jpeg_suffix())
    ||| has_suffix(name, png_suffix())
}

/// The entry contributes a path to the download list.
pub open spec fn is_selected(e: FileEntry) -> bool {
    &&& e.is_file
    &&& is_image_name(e.name@)
    &&& e.path_lower is Some
}

/// The paths of the selected entries, in listing order.
pub open spec fn image_paths(entries: Seq<FileEntry>) -> Seq<Seq<u8>>
    decreases entries.len(),
{
    if entries.len() == 0 {
        Seq::empty()
    } else if is_selected(entries.last()) {
        image_paths(entries.drop_last()).push(entries.last().path_lower.unwrap()@)
    } else {
        image_paths(entries.drop_last())
    }
}

/// `name` ends in `suffix`, byte for byte.
pub fn ends_with_bytes(name: &Vec<u8>, suffix: &Vec<u8>) -> (r: bool)
    ensures
        r == has_suffix(name@, suffix@),
{
    if suffix.len() > name.len() {
        return false;
    }
    let offset = name.len() - suffix.len();
    let mut i: usize = 0;
    while i < suffix.len()
        invariant
            suffix.len() <= name.len(),
            offset == name.len() - suffix.len(),
            i <= suffix.len(),
            forall|j: int| 0 <= j < i ==> name@[offset + j] == suffix@[j],
        decreases suffix.len() - i,
    {
        if name[offset + i] != suffix[i] {
            proof {
                assert(!has_suffix(name@, suffix@)) by {
                    if has_suffix(name@, suffix@) {
                        assert(name@.subrange(
                            name@.len() - suffix@.len(),
                            name@.len() as int,
                        )[i as int] == name@[offset + i]);
                    }
                }
            }
            return false;
        }
        i = i + 1;
    }
    proof {
        assert(name@.subrange(name@.len() - suffix@.len(), name@.len() as int) =~= suffix@);
    }
    true
}

/// The name ends in one of the accepted image suffixes.
pub fn is_image_file_name(name: &Vec<u8>) -> (r: bool)
    ensures
        r == is_image_name(name@),
{
    let jpg = suffix_jpg();
    let jpeg = suffix_jpeg();
    let png = suffix_png();
    ends_with_bytes(name, &jpg) || ends_with_bytes(name, &jpeg) || ends_with_bytes(name, &png)
}

fn suffix_jpg() -> (v: Vec<u8>)
    ensures
        v@ == jpg_suffix(),
{
    let mut v: Vec<u8> = Vec::new();
    v.push(46u8);
    v.push(106u8);
    v.push(112u8);
    v.push(103u8);
    proof {
        assert(v@ =~= jpg_suffix());
    }
    v
}

fn suffix_jpeg() -> (v: Vec<u8>)
    ensures
        v@ == jpeg_suffix(),
{
    let mut v: Vec<u8> = Vec::new();
    v.push(46u8);
    v.push(106u8);
    v.push(112u8);
    v.push(101u8);
    v.push(103u8);
    proof {
        assert(v@ =~= jpeg_suffix());
    }
    v
}

fn suffix_png() -> (v: Vec<u8>)
    ensures
        v@ == png_suffix(),
{
    let mut v: Vec<u8> = Vec::new();
    v.push(46u8);
    v.push(112u8);
    v.push(110u8);
    v.push(103u8);
    proof {
        assert(v@ =~= png_suffix());
    }
    v
}

fn clone_bytes(v: &Vec<u8>) -> (r: Vec<u8>)
    ensures
        r@ == v@,
{
    let mut r: Vec<u8> = Vec::new();
    let mut i: usize = 0;
    while i < v.len()
        invariant
            i <= v.len(),
            r@ == v@.take(i as int),
        decreases v.len() - i,
    {
        r.push(v[i]);
        proof {
            assert(v@.take(i as int).push(v@[i as int]) =~= v@.take(i as int + 1));
        }
        i = i + 1;
    }
    proof {
        assert(v@.take(v@.len() as int) =~= v@);
    }
    r
}

/// The download list: the paths of the entries that are plain files with an
/// accepted image suffix and a lowercased path, in listing order.
pub fn select_image_paths(entries: &Vec<FileEntry>) -> (r: Vec<Vec<u8>>)
    ensures
        r.deep_view() == image_paths(entries@),
{
    let mut r: Vec<Vec<u8>> = Vec::new();
    let mut i: usize = 0;
    while i < entries.len()
        invariant
            i <= entries.len(),
            r.deep_view() == image_paths(entries@.take(i as int)),
        decreases entries.len() - i,
    {
        let ghost prefix = entries@.take(i as int);
        let e = &entries[i];
        let mut selected = false;
        if e.is_file && is_image_file_name(&e.name) {
            match &e.path_lower {
                Some(p) => {
                    r.push(clone_bytes(p));
                    selected = true;
                },
                None => {},
            }
        }
        proof {
            let next = entries@.take(i as int + 1);
            assert(next.drop_last() =~= prefix);
            assert(next.last() == entries@[i as int]);
            if selected {
                assert(r.deep_view() =~~= image_paths(prefix).push(
                    entries@[i as int].path_lower.unwrap()@,
                ));
            }
        }
        i = i + 1;
    }
    proof {
        assert(entries@.take(entries@.len() as int) =~= entries@);
    }
    r
}

} // verus!
