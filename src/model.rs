use vstd::prelude::*;

verus! {

/// A unit of work: one remote file and where to put it.
#[derive(Debug)]
pub struct DownloadItem {
    pub id: String,
    pub batch_id: Option<String>,
    pub url: String,
    pub filename: String,
    pub save_path: String,
}

/// Copies an optional string, keeping its contents.
pub fn copy_opt_string(s: &Option<String>) -> (r: Option<String>)
    ensures
        r == *s,
{
    match s {
        Some(v) => Some(v.clone()),
        None => None,
    }
}

impl DownloadItem {
    /// A field-by-field copy of the item.
    pub fn duplicate(&self) -> (r: DownloadItem)
        ensures
            r == *self,
    {
        DownloadItem {
            id: self.id.clone(),
            batch_id: copy_opt_string(&self.batch_id),
            url: self.url.clone(),
            filename: self.filename.clone(),
            save_path: self.save_path.clone(),
        }
    }
}

/// Copies a list of items, keeping their order and contents.
pub fn copy_items(items: &Vec<DownloadItem>) -> (r: Vec<DownloadItem>)
    ensures
        r@ == items@,
{
    let mut r: Vec<DownloadItem> = Vec::new();
    let mut i: usize = 0;
    while i < items.len()
        invariant
            i <= items@.len(),
            r@ == items@.subrange(0, i as int),
        decreases items@.len() - i,
    {
        r.push(items[i].duplicate());
        i = i + 1;
    }
    assert(r@ =~= items@);
    r
}

/// The status carried by a progress event.
#[derive(Clone, Copy, Debug, PartialEq, Eq, Structural)]
pub enum DownloadStatus {
    Pending,
    Downloading,
    Paused,
    Stopped,
    Completed,
    Error,
}

impl DownloadStatus {
    /// A status that ends the current attempt.
    pub open spec fn is_terminal(self) -> bool {
        match self {
            DownloadStatus::Completed | DownloadStatus::Stopped | DownloadStatus::Paused
            | DownloadStatus::Error => true,
            _ => false,
        }
    }

    pub open spec fn spec_name(self) -> Seq<char> {
        match self {
            DownloadStatus::Pending => "pending"@,
            DownloadStatus::Downloading => "downloading"@,
            DownloadStatus::Paused => "paused"@,
            DownloadStatus::Stopped => "stopped"@,
            DownloadStatus::Completed => "completed"@,
            DownloadStatus::Error => "error"@,
        }
    }

    /// The lower-case name under which observers receive the status.
    pub fn as_str(&self) -> (r: &'static str)
        ensures
            r@ == self.spec_name(),
    {
        match self {
            DownloadStatus::Pending => "pending",
            DownloadStatus::Downloading => "downloading",
            DownloadStatus::Paused => "paused",
            DownloadStatus::Stopped => "stopped",
            DownloadStatus::Completed => "completed",
            DownloadStatus::Error => "error",
        }
    }
}

/// A point-in-time progress event for one item.
#[derive(Debug)]
pub struct DownloadProgress {
    pub id: String,
    pub batch_id: Option<String>,
    pub total: u64,
    pub current: u64,
    pub status: DownloadStatus,
}

/// The lifecycle of the global download queue.
#[derive(Clone, Copy, Debug, PartialEq, Eq, Structural)]
pub enum DownloadManagerState {
    Idle,
    Running,
    Paused,
    Stopped,
}

} // verus!
