//! Finding the image to open: the one `.image` file of a directory, the
//! first directory that has one, or an image named by the user.
use vstd::prelude::*;
use crate::paths::{extension, extension_of};
use crate::text::{views, str_eq};

verus! {

/// Whether a path names an image file: its extension is `image`.
pub open spec fn is_image_file(path: Seq<char>) -> bool {
    extension_of(path) == Some("image"@)
}

/// The image files among the entries of a directory, in order.
pub open spec fn image_files(entries: Seq<Seq<char>>) -> Seq<Seq<char>>
    decreases entries.len(),
{
    if entries.len() == 0 {
        Seq::empty()
    } else if is_image_file(entries.last()) {
        image_files(entries.drop_last()).push(entries.last())
    } else {
        image_files(entries.drop_last())
    }
}

/// The image of a directory: its image file when it has exactly one.
pub open spec fn image_in(entries: Seq<Seq<char>>) -> Option<Seq<char>> {
    if image_files(entries).len() == 1 {
        Some(image_files(entries)[0])
    } else {
        None
    }
}

/// The image of the first directory that has one.
pub open spec fn first_image_in(listings: Seq<Seq<Seq<char>>>) -> Option<Seq<char>>
    decreases listings.len(),
{
    if listings.len() == 0 {
        None
    } else {
        match image_in(listings[0]) {
            Some(i) => Some(i),
            None => first_image_in(listings.skip(1)),
        }
    }
}

/// The listings of several directories as text.
pub open spec fn listings_view(listings: Seq<Vec<String>>) -> Seq<Seq<Seq<char>>> {
    listings.map_values(|l: Vec<String>| views(l@))
}

/// Whether a path has the extension `image`.
fn has_image_extension(path: &str) -> (result: bool)
    ensures
        result == is_image_file(path@),
{
    match extension(path) {
        Some(e) => str_eq(e.as_str(), "image"),
        None => false,
    }
}

/// The image file of a directory, given the paths of its entries: the one
/// entry whose extension is `image`, or none when there are none or
/// several.
pub fn try_find_image_file_in_directory(entries: &Vec<String>) -> (result: Option<String>)
    ensures
        match image_in(views(entries@)) {
            Some(i) => result matches Some(r) && r@ == i,
            None => result is None,
        },
{
    let mut found: Vec<String> = Vec::new();
    let mut i: usize = 0;
    while i < entries.len()
        invariant
            i <= entries@.len(),
            views(found@) == image_files(views(entries@).take(i as int)),
        decreases entries@.len() - i,
    {
        let ghost next = views(entries@).take(i + 1);
        assert(next.drop_last() =~= views(entries@).take(i as int));
        assert(next.last() == entries@[i as int]@);
        if has_image_extension(entries[i].as_str()) {
            let ghost before = found@;
            found.push(entries[i].clone());
            assert(views(found@) =~= views(before).push(entries@[i as int]@));
        }
        i = i + 1;
    }
    assert(views(entries@).take(i as int) =~= views(entries@));
    if found.len() == 1 {
        assert(views(found@)[0] == found@[0]@);
        Some(found[0].clone())
    } else {
        None
    }
}

/// The image of the first directory that has one, given the paths of the
/// entries of each directory in order.
pub fn search_image_file_within_directories(listings: &Vec<Vec<String>>) -> (result: Option<String>)
    ensures
        match first_image_in(listings_view(listings@)) {
            Some(i) => result matches Some(r) && r@ == i,
            None => result is None,
        },
{
    let mut d: usize = 0;
    assert(listings_view(listings@).skip(0) =~= listings_view(listings@));
    while d < listings.len()
        invariant
            d <= listings@.len(),
            first_image_in(listings_view(listings@)) == first_image_in(listings_view(listings@).skip(d as int)),
        decreases listings@.len() - d,
    {
        let ghost rest = listings_view(listings@).skip(d as int);
        assert(rest[0] == views(listings@[d as int]@));
        assert(rest.skip(1) =~= listings_view(listings@).skip(d + 1));
        match try_find_image_file_in_directory(&listings[d]) {
            Some(image) => {
                return Some(image);
            },
            None => {},
        }
        d = d + 1;
    }
    assert(listings_view(listings@).skip(d as int) =~= Seq::<Seq<Seq<char>>>::empty());
    None
}

/// The image the user named, when it exists.
pub fn validate_user_image_file(image_name: Option<&str>, exists: bool) -> (result: Option<String>)
    ensures
        match image_name {
            Some(n) => if exists { result matches Some(r) && r@ == n@ } else { result is None },
            None => result is None,
        },
{
    match image_name {
        Some(n) => {
            if exists {
                Some(crate::text::copy_str(n))
            } else {
                None
            }
        },
        None => None,
    }
}

} // verus!
