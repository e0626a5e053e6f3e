//! The boundary to the relational store: marshalling items and albums to
//! and from plain column values, with a proved round trip.

use vstd::prelude::*;

use crate::ident::{canonical_timestamp, new_uuid, now_rfc3339, parse_rfc3339_utc, rfc3339_utc_of};
use crate::media::{Album, ErrorKind, Item};

verus! {

/// One column value as the relational store holds it: integers for
/// numbers and flags, text for strings and timestamps, null for absent
/// references.
#[derive(Debug, Clone, PartialEq)]
pub enum RowValue {
    Int(i64),
    Text(String),
    Null,
}

/// The twelve column values of an item row, in table order; flags become
/// `0`/`1` integers and the timestamp stays text.
pub open spec fn spec_item_row(item: Item) -> Seq<RowValue> {
    seq![
        RowValue::Text(item.id),
        RowValue::Text(item.original_name),
        RowValue::Text(item.file_type),
        RowValue::Int(item.file_size as i64),
        RowValue::Int(item.width as i64),
        RowValue::Int(item.height as i64),
        RowValue::Text(item.checksum),
        RowValue::Int(if item.is_favorite { 1 } else { 0 }),
        RowValue::Int(if item.is_screenshot { 1 } else { 0 }),
        RowValue::Int(if item.is_screen_recording { 1 } else { 0 }),
        match item.live_video {
            Option::Some(v) => RowValue::Text(v),
            Option::None => RowValue::Null,
        },
        RowValue::Text(item.created_at),
    ]
}

/// Marshals an item into its row, ready for one parameterized insert.
pub fn item_to_row(item: &Item) -> (r: Vec<RowValue>)
    requires
        item.file_size <= i64::MAX as u64,
    ensures
        r@ == spec_item_row(*item),
{
    let mut row: Vec<RowValue> = Vec::new();
    row.push(RowValue::Text(item.id.clone()));
    row.push(RowValue::Text(item.original_name.clone()));
    row.push(RowValue::Text(item.file_type.clone()));
    row.push(RowValue::Int(item.file_size as i64));
    row.push(RowValue::Int(item.width as i64));
    row.push(RowValue::Int(item.height as i64));
    row.push(RowValue::Text(item.checksum.clone()));
    row.push(RowValue::Int(if item.is_favorite { 1 } else { 0 }));
    row.push(RowValue::Int(if item.is_screenshot { 1 } else { 0 }));
    row.push(RowValue::Int(if item.is_screen_recording { 1 } else { 0 }));
    row.push(
        match &item.live_video {
            Option::Some(v) => RowValue::Text(v.clone()),
            Option::None => RowValue::Null,
        },
    );
    row.push(RowValue::Text(item.created_at.clone()));
    proof {
        assert(row@ =~= spec_item_row(*item));
    }
    row
}

/// An item row is well formed: twelve values of the right shapes, sizes
/// that fit their fields, and a parseable timestamp.
pub open spec fn spec_row_ok(row: Seq<RowValue>) -> bool {
    &&& row.len() == 12
    &&& row[0] is Text
    &&& row[1] is Text
    &&& row[2] is Text
    &&& (row[3] matches RowValue::Int(v) && 0 <= v)
    &&& (row[4] matches RowValue::Int(v) && 0 <= v <= u32::MAX)
    &&& (row[5] matches RowValue::Int(v) && 0 <= v <= u32::MAX)
    &&& row[6] is Text
    &&& row[7] is Int
    &&& row[8] is Int
    &&& row[9] is Int
    &&& (row[10] is Text || row[10] is Null)
    &&& (row[11] matches RowValue::Text(t) && rfc3339_utc_of(t@) is Some)
}

/// How an unmarshalled item relates to its row: each field reads the
/// matching column, flags by non-zero test, the timestamp re-normalized
/// to UTC.
pub open spec fn item_matches_row(it: Item, row: Seq<RowValue>) -> bool {
    &&& it.id == row[0]->Text_0
    &&& it.original_name == row[1]->Text_0
    &&& it.file_type == row[2]->Text_0
    &&& it.file_size == row[3]->Int_0 as u64
    &&& it.width == row[4]->Int_0 as u32
    &&& it.height == row[5]->Int_0 as u32
    &&& it.checksum == row[6]->Text_0
    &&& it.is_favorite == (row[7]->Int_0 != 0)
    &&& it.is_screenshot == (row[8]->Int_0 != 0)
    &&& it.is_screen_recording == (row[9]->Int_0 != 0)
    &&& it.live_video == (if row[10] is Text {
        Option::Some(row[10]->Text_0)
    } else {
        Option::<String>::None
    })
    &&& Option::Some(it.created_at@) == rfc3339_utc_of(row[11]->Text_0@)
}

/// Unmarshals one row of the item table, refusing any row whose shape or
/// timestamp the store should never have produced.
pub fn deserialize_item(row: &Vec<RowValue>) -> (r: Result<Item, ErrorKind>)
    ensures
        spec_row_ok(row@) ==> (r matches Ok(it) && item_matches_row(it, row@)),
        !spec_row_ok(row@) ==> r == Result::<Item, ErrorKind>::Err(ErrorKind::StorageError),
{
    if row.len() != 12 {
        return Err(ErrorKind::StorageError);
    }
    let id = match &row[0] {
        RowValue::Text(s) => s.clone(),
        _ => {
            return Err(ErrorKind::StorageError);
        },
    };
    let original_name = match &row[1] {
        RowValue::Text(s) => s.clone(),
        _ => {
            return Err(ErrorKind::StorageError);
        },
    };
    let file_type = match &row[2] {
        RowValue::Text(s) => s.clone(),
        _ => {
            return Err(ErrorKind::StorageError);
        },
    };
    let file_size: u64 = match &row[3] {
        RowValue::Int(v) => if *v >= 0 {
            *v as u64
        } else {
            return Err(ErrorKind::StorageError);
        },
        _ => {
            return Err(ErrorKind::StorageError);
        },
    };
    let width: u32 = match &row[4] {
        RowValue::Int(v) => if *v >= 0 && *v <= u32::MAX as i64 {
            *v as u32
        } else {
            return Err(ErrorKind::StorageError);
        },
        _ => {
            return Err(ErrorKind::StorageError);
        },
    };
    let height: u32 = match &row[5] {
        RowValue::Int(v) => if *v >= 0 && *v <= u32::MAX as i64 {
            *v as u32
        } else {
            return Err(ErrorKind::StorageError);
        },
        _ => {
            return Err(ErrorKind::StorageError);
        },
    };
    let checksum = match &row[6] {
        RowValue::Text(s) => s.clone(),
        _ => {
            return Err(ErrorKind::StorageError);
        },
    };
    let is_favorite = match &row[7] {
        RowValue::Int(v) => *v != 0,
        _ => {
            return Err(ErrorKind::StorageError);
        },
    };
    let is_screenshot = match &row[8] {
        RowValue::Int(v) => *v != 0,
        _ => {
            return Err(ErrorKind::StorageError);
        },
    };
    let is_screen_recording = match &row[9] {
        RowValue::Int(v) => *v != 0,
        _ => {
            return Err(ErrorKind::StorageError);
        },
    };
    let live_video = match &row[10] {
        RowValue::Text(s) => Option::Some(s.clone()),
        RowValue::Null => Option::None,
        _ => {
            return Err(ErrorKind::StorageError);
        },
    };
    let created_at = match &row[11] {
        RowValue::Text(s) => match parse_rfc3339_utc(s.as_str()) {
            Option::Some(t) => t,
            Option::None => {
                return Err(ErrorKind::StorageError);
            },
        },
        _ => {
            return Err(ErrorKind::StorageError);
        },
    };
    Ok(
        Item {
            id,
            original_name,
            file_type,
            file_size,
            width,
            height,
            checksum,
            is_favorite,
            is_screenshot,
            is_screen_recording,
            live_video,
            created_at,
        },
    )
}

/// A marshalled item row is always well formed, provided the size fits
/// the store's integer column and the timestamp is in normalized form.
pub proof fn lemma_item_row_ok(item: Item)
    requires
        item.file_size <= i64::MAX as u64,
        canonical_timestamp(item.created_at@),
    ensures
        spec_row_ok(spec_item_row(item)),
{
}

/// Round trip: unmarshalling a marshalled item gives every field back —
/// the timestamp up to its text, which canonical form keeps unchanged.
pub proof fn lemma_row_round_trip(item: Item, it2: Item)
    requires
        item.file_size <= i64::MAX as u64,
        canonical_timestamp(item.created_at@),
        item_matches_row(it2, spec_item_row(item)),
    ensures
        it2.id == item.id,
        it2.original_name == item.original_name,
        it2.file_type == item.file_type,
        it2.file_size == item.file_size,
        it2.width == item.width,
        it2.height == item.height,
        it2.checksum == item.checksum,
        it2.is_favorite == item.is_favorite,
        it2.is_screenshot == item.is_screenshot,
        it2.is_screen_recording == item.is_screen_recording,
        it2.live_video == item.live_video,
        it2.created_at@ == item.created_at@,
{
}

/// A fresh album record: a new id, no cover, and creation and
/// modification stamped with one and the same moment.
pub fn new_album(name: &str, description: Option<String>) -> (r: Album)
    ensures
        r.id@.len() == 36,
        r.name@ == name@,
        r.description == description,
        r.cover_photo_id is None,
        r.created_at == r.modified_at,
        canonical_timestamp(r.created_at@),
{
    let id = new_uuid();
    let now = now_rfc3339();
    Album {
        id,
        name: crate::text::treat_msg(name),
        description,
        cover_photo_id: Option::None,
        created_at: now.clone(),
        modified_at: now,
    }
}

/// The six column values of an album row, in table order.
pub open spec fn spec_album_row_ok(row: Seq<RowValue>) -> bool {
    &&& row.len() == 6
    &&& row[0] is Text
    &&& row[1] is Text
    &&& (row[2] is Text || row[2] is Null)
    &&& (row[3] is Text || row[3] is Null)
    &&& (row[4] matches RowValue::Text(t) && rfc3339_utc_of(t@) is Some)
    &&& (row[5] matches RowValue::Text(t) && rfc3339_utc_of(t@) is Some)
}

/// How an unmarshalled album relates to its row.
pub open spec fn album_matches_row(a: Album, row: Seq<RowValue>) -> bool {
    &&& a.id == row[0]->Text_0
    &&& a.name == row[1]->Text_0
    &&& a.description == (if row[2] is Text {
        Option::Some(row[2]->Text_0)
    } else {
        Option::<String>::None
    })
    &&& a.cover_photo_id == (if row[3] is Text {
        Option::Some(row[3]->Text_0)
    } else {
        Option::<String>::None
    })
    &&& Option::Some(a.created_at@) == rfc3339_utc_of(row[4]->Text_0@)
    &&& Option::Some(a.modified_at@) == rfc3339_utc_of(row[5]->Text_0@)
}

/// Unmarshals one row of the album table.
pub fn deserialize_album(row: &Vec<RowValue>) -> (r: Result<Album, ErrorKind>)
    ensures
        spec_album_row_ok(row@) ==> (r matches Ok(a) && album_matches_row(a, row@)),
        !spec_album_row_ok(row@) ==> r == Result::<Album, ErrorKind>::Err(ErrorKind::StorageError),
{
    if row.len() != 6 {
        return Err(ErrorKind::StorageError);
    }
    let id = match &row[0] {
        RowValue::Text(s) => s.clone(),
        _ => {
            return Err(ErrorKind::StorageError);
        },
    };
    let name = match &row[1] {
        RowValue::Text(s) => s.clone(),
        _ => {
            return Err(ErrorKind::StorageError);
        },
    };
    let description = match &row[2] {
        RowValue::Text(s) => Option::Some(s.clone()),
        RowValue::Null => Option::None,
        _ => {
            return Err(ErrorKind::StorageError);
        },
    };
    let cover_photo_id = match &row[3] {
        RowValue::Text(s) => Option::Some(s.clone()),
        RowValue::Null => Option::None,
        _ => {
            return Err(ErrorKind::StorageError);
        },
    };
    let created_at = match &row[4] {
        RowValue::Text(s) => match parse_rfc3339_utc(s.as_str()) {
            Option::Some(t) => t,
            Option::None => {
                return Err(ErrorKind::StorageError);
            },
        },
        _ => {
            return Err(ErrorKind::StorageError);
        },
    };
    let modified_at = match &row[5] {
        RowValue::Text(s) => match parse_rfc3339_utc(s.as_str()) {
            Option::Some(t) => t,
            Option::None => {
                return Err(ErrorKind::StorageError);
            },
        },
        _ => {
            return Err(ErrorKind::StorageError);
        },
    };
    Ok(Album { id, name, description, cover_photo_id, created_at, modified_at })
}

} // verus!
