//! The document sent to the index: a torrent with its files and the fields
//! derived from them.

use vstd::prelude::*;
use vstd::string::StringExecFns;
use crate::record::{files_view, File, FileView, ParentRecord, ParentView};

verus! {

/// The poster of every torrent that has no image of its own.
pub const DEFAULT_POSTER: &'static str = "https://s3.jeykey.net/public/images/torrent.png";

/// The document of one torrent.
#[derive(Debug, Clone)]
pub struct Torrent {
    pub id: u64,
    pub hash: String,
    pub name: String,
    pub size: u64,
    pub seeders: u64,
    pub leechers: u64,
    pub num_files: u64,
    pub poster: String,
    pub url: String,
    pub uploaded: u64,
    pub files: Vec<File>,
}

pub struct TorrentView {
    pub id: u64,
    pub hash: Seq<char>,
    pub name: Seq<char>,
    pub size: u64,
    pub seeders: u64,
    pub leechers: u64,
    pub num_files: u64,
    pub poster: Seq<char>,
    pub url: Seq<char>,
    pub uploaded: u64,
    pub files: Seq<FileView>,
}

impl View for Torrent {
    type V = TorrentView;

    open spec fn view(&self) -> TorrentView {
        TorrentView {
            id: self.id,
            hash: self.hash@,
            name: self.name@,
            size: self.size,
            seeders: self.seeders,
            leechers: self.leechers,
            num_files: self.num_files,
            poster: self.poster@,
            url: self.url@,
            uploaded: self.uploaded,
            files: files_view(self.files@),
        }
    }
}

/// The magnet link of a torrent: its fingerprint and its name, the name
/// embedded as it is, unescaped.
pub open spec fn magnet_link(hash: Seq<char>, name: Seq<char>) -> Seq<char> {
    "magnet:?xt=urn:btih:"@ + hash + "&dn="@ + name
}

/// The document of a parent record and its files.
pub open spec fn document_of(p: ParentView, files: Seq<FileView>) -> TorrentView {
    TorrentView {
        id: p.id,
        hash: p.hash,
        name: p.name,
        size: p.size,
        seeders: p.seeders,
        leechers: p.leechers,
        num_files: p.num_files,
        poster: DEFAULT_POSTER@,
        url: magnet_link(p.hash, p.name),
        uploaded: p.uploaded,
        files,
    }
}

/// Builds the magnet link of a fingerprint and a name.
pub fn locator(hash: &str, name: &str) -> (r: String)
    ensures
        r@ == magnet_link(hash@, name@),
{
    let mut url = String::from_str("magnet:?xt=urn:btih:");
    url.append(hash);
    url.append("&dn=");
    url.append(name);
    url
}

/// Assembles the document of a parent record from the files fetched for it,
/// in the order given.
pub fn build(parent: ParentRecord, children: Vec<File>) -> (r: Torrent)
    ensures
        r@ == document_of(parent@, files_view(children@)),
{
    let url = locator(parent.hash.as_str(), parent.name.as_str());
    Torrent {
        id: parent.id,
        hash: parent.hash,
        name: parent.name,
        size: parent.size,
        seeders: parent.seeders,
        leechers: parent.leechers,
        num_files: parent.num_files,
        poster: String::from_str(DEFAULT_POSTER),
        url,
        uploaded: parent.uploaded,
        files: children,
    }
}

} // verus!
