//! The records of the source store: one torrent and the files it holds.

use vstd::prelude::*;
use crate::row::{column, read_text, read_u64, read_usize, text_of, u64_of, usize_of, Cell, MalformedRow};

verus! {

/// One torrent as read from the primary table.
#[derive(Debug, Clone)]
pub struct ParentRecord {
    pub id: u64,
    pub hash: String,
    pub name: String,
    pub size: u64,
    pub uploaded: u64,
    pub seeders: u64,
    pub leechers: u64,
    /// The stored number of files: a hint that is never used as a bound.
    pub num_files: u64,
}

pub struct ParentView {
    pub id: u64,
    pub hash: Seq<char>,
    pub name: Seq<char>,
    pub size: u64,
    pub uploaded: u64,
    pub seeders: u64,
    pub leechers: u64,
    pub num_files: u64,
}

impl View for ParentRecord {
    type V = ParentView;

    open spec fn view(&self) -> ParentView {
        ParentView {
            id: self.id,
            hash: self.hash@,
            name: self.name@,
            size: self.size,
            uploaded: self.uploaded,
            seeders: self.seeders,
            leechers: self.leechers,
            num_files: self.num_files,
        }
    }
}

/// One file of a torrent.
#[derive(Debug, Clone)]
pub struct File {
    pub name: String,
    pub size: usize,
}

pub struct FileView {
    pub name: Seq<char>,
    pub size: usize,
}

impl View for File {
    type V = FileView;

    open spec fn view(&self) -> FileView {
        FileView { name: self.name@, size: self.size }
    }
}

/// The views of a sequence of files, in order.
pub open spec fn files_view(files: Seq<File>) -> Seq<FileView> {
    files.map_values(|f: File| f@)
}

pub open spec fn u64_col(row: Seq<Cell>, col: usize) -> Result<u64, MalformedRow> {
    column(row, col, |c: Cell| u64_of(c))
}

pub open spec fn text_col(row: Seq<Cell>, col: usize) -> Result<Seq<char>, MalformedRow> {
    column(row, col, |c: Cell| text_of(c))
}

/// A parent row holds, in this order: identity, fingerprint, name, size,
/// upload time, seeders, leechers and the file-count hint. The first column
/// that is absent or of the wrong shape is the one reported.
pub open spec fn parent_of_row(row: Seq<Cell>) -> Result<ParentView, MalformedRow> {
    if u64_col(row, 0) is Err {
        Err(u64_col(row, 0)->Err_0)
    } else if text_col(row, 1) is Err {
        Err(text_col(row, 1)->Err_0)
    } else if text_col(row, 2) is Err {
        Err(text_col(row, 2)->Err_0)
    } else if u64_col(row, 3) is Err {
        Err(u64_col(row, 3)->Err_0)
    } else if u64_col(row, 4) is Err {
        Err(u64_col(row, 4)->Err_0)
    } else if u64_col(row, 5) is Err {
        Err(u64_col(row, 5)->Err_0)
    } else if u64_col(row, 6) is Err {
        Err(u64_col(row, 6)->Err_0)
    } else if u64_col(row, 7) is Err {
        Err(u64_col(row, 7)->Err_0)
    } else {
        Ok(ParentView {
            id: u64_col(row, 0)->Ok_0,
            hash: text_col(row, 1)->Ok_0,
            name: text_col(row, 2)->Ok_0,
            size: u64_col(row, 3)->Ok_0,
            uploaded: u64_col(row, 4)->Ok_0,
            seeders: u64_col(row, 5)->Ok_0,
            leechers: u64_col(row, 6)->Ok_0,
            num_files: u64_col(row, 7)->Ok_0,
        })
    }
}

/// A file row holds its own identity, then the name and the size; the
/// identity is not read.
pub open spec fn file_of_row(row: Seq<Cell>) -> Result<FileView, MalformedRow> {
    if text_col(row, 1) is Err {
        Err(text_col(row, 1)->Err_0)
    } else if column(row, 2, |c: Cell| usize_of(c)) is Err {
        Err(column(row, 2, |c: Cell| usize_of(c))->Err_0)
    } else {
        Ok(FileView {
            name: text_col(row, 1)->Ok_0,
            size: column(row, 2, |c: Cell| usize_of(c))->Ok_0,
        })
    }
}

/// The files of the rows that decode, in row order; the others are dropped.
pub open spec fn decoded_files(rows: Seq<Vec<Cell>>) -> Seq<FileView>
    decreases rows.len(),
{
    if rows.len() == 0 {
        Seq::empty()
    } else {
        let rest = decoded_files(rows.drop_last());
        match file_of_row(rows.last()@) {
            Ok(f) => rest.push(f),
            Err(_) => rest,
        }
    }
}

impl ParentRecord {
    /// Maps a parent row onto a record.
    pub fn from_row(row: &Vec<Cell>) -> (r: Result<ParentRecord, MalformedRow>)
        ensures
            match parent_of_row(row@) {
                Ok(v) => r matches Ok(p) && p@ == v,
                Err(e) => r == Err::<ParentRecord, MalformedRow>(e),
            },
    {
        let id = match read_u64(row, 0) {
            Ok(v) => v,
            Err(e) => return Err(e),
        };
        let hash = match read_text(row, 1) {
            Ok(v) => v,
            Err(e) => return Err(e),
        };
        let name = match read_text(row, 2) {
            Ok(v) => v,
            Err(e) => return Err(e),
        };
        let size = match read_u64(row, 3) {
            Ok(v) => v,
            Err(e) => return Err(e),
        };
        let uploaded = match read_u64(row, 4) {
            Ok(v) => v,
            Err(e) => return Err(e),
        };
        let seeders = match read_u64(row, 5) {
            Ok(v) => v,
            Err(e) => return Err(e),
        };
        let leechers = match read_u64(row, 6) {
            Ok(v) => v,
            Err(e) => return Err(e),
        };
        let num_files = match read_u64(row, 7) {
            Ok(v) => v,
            Err(e) => return Err(e),
        };
        Ok(ParentRecord { id, hash, name, size, uploaded, seeders, leechers, num_files })
    }
}

impl File {
    /// Maps a file row onto a file.
    pub fn from_row(row: &Vec<Cell>) -> (r: Result<File, MalformedRow>)
        ensures
            match file_of_row(row@) {
                Ok(v) => r matches Ok(f) && f@ == v,
                Err(e) => r == Err::<File, MalformedRow>(e),
            },
    {
        let name = match read_text(row, 1) {
            Ok(v) => v,
            Err(e) => return Err(e),
        };
        let size = match read_usize(row, 2) {
            Ok(v) => v,
            Err(e) => return Err(e),
        };
        Ok(File { name, size })
    }
}

/// Decodes the file rows fetched for one torrent, keeping their order. Rows
/// that do not decode are dropped and counted; the file-count hint plays no part.
pub fn decode_files(rows: &Vec<Vec<Cell>>) -> (r: (Vec<File>, usize))
    ensures
        files_view(r.0@) == decoded_files(rows@),
        r.0@.len() + r.1 == rows@.len(),
{
    let mut files: Vec<File> = Vec::new();
    let mut dropped: usize = 0;
    let mut i: usize = 0;
    while i < rows.len()
        invariant
            i <= rows@.len(),
            files_view(files@) == decoded_files(rows@.subrange(0, i as int)),
            files@.len() + dropped == i,
        decreases rows@.len() - i,
    {
        assert(rows@.subrange(0, i + 1).drop_last() == rows@.subrange(0, i as int));
        match File::from_row(&rows[i]) {
            Ok(f) => {
                files.push(f);
                assert(files_view(files@) == files_view(files@.drop_last()).push(files@.last()@));
            },
            Err(_) => {
                dropped = dropped + 1;
            },
        }
        i = i + 1;
    }
    assert(rows@.subrange(0, rows@.len() as int) == rows@);
    (files, dropped)
}

} // verus!
