//! The bytes of a snapshot of the store, and the names of its files.
use std::io::{Read, Write};
use vstd::prelude::*;
use vstd::string::StringExecFns;

verus! {

/// The name of the live snapshot file.
pub const SNAPSHOT_FILE_NAME: &'static str = "data.gz";

/// The name of the directory, beside the live snapshot, that holds backups.
pub const BACKUP_DIR_NAME: &'static str = "data";

/// The gzip stream that `flate2` writes for `b` at the best compression.
pub uninterp spec fn gzip_of(b: Seq<u8>) -> Seq<u8>;

/// What `flate2` reads back from the gzip stream `b`, where it is one.
pub uninterp spec fn gunzip_of(b: Seq<u8>) -> Option<Seq<u8>>;

/// The RFC 3339 text, to the second and with a `+00:00` offset, of the
/// instant `micros` microseconds after the Unix epoch, where `chrono` can
/// represent it.
pub uninterp spec fn rfc3339_of(micros: i64) -> Option<Seq<char>>;

/// Relies on `flate2::write::GzEncoder` writing into memory, at the best
/// compression: the stream depends on the bytes alone, and reading it back
/// gives them again.
#[verifier::external_body]
fn gzip(b: &Vec<u8>) -> (r: Vec<u8>)
    ensures
        r@ == gzip_of(b@),
        gunzip_of(r@) == Some(b@),
{
    let mut encoder = flate2::write::GzEncoder::new(Vec::new(), flate2::Compression::best());
    encoder.write_all(b).expect("writing into memory does not fail");
    encoder.finish().expect("writing into memory does not fail")
}

/// Relies on `flate2::read::GzDecoder`: the bytes that the gzip stream `b`
/// holds, or nothing where `b` is not a complete gzip stream.
#[verifier::external_body]
fn gunzip(b: &Vec<u8>) -> (r: Option<Vec<u8>>)
    ensures
        match r {
            Some(v) => gunzip_of(b@) == Some(v@),
            None => gunzip_of(b@) is None,
        },
{
    let mut out = Vec::new();
    match flate2::read::GzDecoder::new(b.as_slice()).read_to_end(&mut out) {
        Ok(_) => Some(out),
        Err(_) => None,
    }
}

/// Relies on `chrono::DateTime::from_timestamp_micros` and
/// `DateTime::to_rfc3339_opts` with whole seconds and no `Z`.
#[verifier::external_body]
fn rfc3339_secs(micros: i64) -> (r: Option<String>)
    ensures
        match r {
            Some(s) => rfc3339_of(micros) == Some(s@),
            None => rfc3339_of(micros) is None,
        },
{
    chrono::DateTime::from_timestamp_micros(micros)
        .map(|t| t.to_rfc3339_opts(chrono::SecondsFormat::Secs, false))
}

/// The contents of a snapshot file holding the serialised store `text`.
pub fn encode_snapshot(text: &Vec<u8>) -> (r: Vec<u8>)
    ensures
        r@ == gzip_of(text@),
        text@.len() > 0 ==> decoded_snapshot(r@) == Some(text@),
{
    gzip(text)
}

/// The serialised store that the contents of a snapshot file hold, where
/// they are a complete gzip stream of something other than nothing.
pub open spec fn decoded_snapshot(file: Seq<u8>) -> Option<Seq<u8>> {
    match gunzip_of(file) {
        Some(t) => if t.len() > 0 {
            Some(t)
        } else {
            None
        },
        None => None,
    }
}

/// The serialised store that the contents of a snapshot file hold; nothing
/// where the file is empty, truncated or not gzip.
pub fn decode_snapshot(file: &Vec<u8>) -> (r: Option<Vec<u8>>)
    ensures
        match r {
            Some(t) => decoded_snapshot(file@) == Some(t@),
            None => decoded_snapshot(file@) is None,
        },
{
    match gunzip(file) {
        Some(t) => if t.len() > 0 {
            Some(t)
        } else {
            None
        },
        None => None,
    }
}

/// The name of the backup file that takes a snapshot created `micros`
/// microseconds after the Unix epoch: `data-<time>.gz.bak`, the time in
/// RFC 3339 to the second; nothing where the time cannot be represented.
pub fn backup_file_name(created_micros: i64) -> (r: Option<String>)
    ensures
        match rfc3339_of(created_micros) {
            Some(t) => r is Some && r->0@ == "data-"@ + t + ".gz.bak"@,
            None => r is None,
        },
{
    match rfc3339_secs(created_micros) {
        Some(t) => {
            let mut name = String::from_str("data-");
            name.append(t.as_str());
            name.append(".gz.bak");
            Some(name)
        },
        None => None,
    }
}

/// The name of the backup that takes a snapshot created `created` micros
/// after the Unix epoch, where the time can be represented.
pub open spec fn backup_name_of(created: i64) -> Option<Seq<char>> {
    match rfc3339_of(created) {
        Some(t) => Some("data-"@ + t + ".gz.bak"@),
        None => None,
    }
}

/// The snapshot files on disk: the creation time of the live snapshot, where
/// there is one, and the names of the backups.
pub ghost struct SnapshotFiles {
    pub live: Option<i64>,
    pub backups: Set<Seq<char>>,
}

/// What is done with the live snapshot before a new one is written.
#[derive(Clone, Debug, PartialEq, Eq)]
pub enum Rotation {
    /// There is no live snapshot: write the new one.
    Fresh,
    /// Move the live snapshot into the backup directory under this name, then
    /// write the new one.
    MoveTo(String),
    /// The live snapshot's creation time has no name: the save fails.
    Unnamed,
}

/// The snapshot files after a save that wrote a new snapshot at `now`, or
/// nothing where the save fails.
pub open spec fn files_after_save(files: SnapshotFiles, now: i64) -> Option<SnapshotFiles> {
    match files.live {
        None => Some(SnapshotFiles { live: Some(now), backups: files.backups }),
        Some(created) => match backup_name_of(created) {
            Some(n) => Some(SnapshotFiles { live: Some(now), backups: files.backups.insert(n) }),
            None => None,
        },
    }
}

/// What to do with the live snapshot, created at `live_created` where there
/// is one, before writing a new one.
pub fn plan_rotation(live_created: Option<i64>) -> (r: Rotation)
    ensures
        match live_created {
            None => r == Rotation::Fresh,
            Some(c) => match backup_name_of(c) {
                Some(n) => r is MoveTo && r->MoveTo_0@ == n,
                None => r == Rotation::Unnamed,
            },
        },
{
    match live_created {
        None => Rotation::Fresh,
        Some(c) => match backup_file_name(c) {
            Some(name) => Rotation::MoveTo(name),
            None => Rotation::Unnamed,
        },
    }
}

/// Saving twice in a row, starting with no snapshot, leaves one live
/// snapshot (the second) and one backup, named after the creation time of the
/// first.
pub proof fn lemma_two_saves(first: i64, second: i64)
    requires
        rfc3339_of(first) is Some,
    ensures
        files_after_save(SnapshotFiles { live: None, backups: Set::empty() }, first) is Some,
        files_after_save(files_after_save(SnapshotFiles { live: None, backups: Set::empty() }, first)->0, second)
            == Some(SnapshotFiles { live: Some(second), backups: set![backup_name_of(first)->0] }),
{
    let once = files_after_save(SnapshotFiles { live: None, backups: Set::empty() }, first)->0;
    assert(once.backups == Set::<Seq<char>>::empty());
    assert(Set::<Seq<char>>::empty().insert(backup_name_of(first)->0) =~= set![backup_name_of(first)->0]);
}

} // verus!
