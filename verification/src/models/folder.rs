//! Chat folders as the server describes them.
use vstd::prelude::*;

verus! {

/// A folder that groups chats.
#[derive(Debug, Clone)]
pub struct ChatFolder {
    pub id: String,
    pub title: String,
    pub emoji: Option<String>,
    pub included: Vec<i64>,
    pub filters: Vec<i64>,
    pub options: Vec<i64>,
    pub favorites: Vec<i64>,
    pub update_time: Option<i64>,
    pub source_id: Option<i64>,
}

/// The folders of an account and the order in which they are shown.
#[derive(Debug, Clone)]
pub struct FoldersPayload {
    pub folders: Vec<ChatFolder>,
    pub folders_order: Vec<String>,
    pub folder_sync: Option<i64>,
}

} // verus!
