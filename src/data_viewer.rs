use vstd::prelude::*;

use crate::comm::{CommInitiator, CommManager, CommOpenOutcome};
use crate::session::new_uuid;

verus! {

/// The comm target of data viewers.
pub open spec fn data_viewer_target() -> Seq<char> {
    "positron.dataViewer"@
}

/// One column of a data set, its values formatted as text.
#[derive(Debug)]
pub struct DataColumn {
    pub name: String,
    pub column_type: String,
    pub data: Vec<String>,
}

/// A data set shown by the data viewer.
#[derive(Debug)]
pub struct DataSet {
    pub id: String,
    pub title: String,
    pub columns: Vec<DataColumn>,
    pub row_count: usize,
}

/// A data viewer: a kernel-opened comm that shows one data set.
#[derive(Debug)]
pub struct RDataViewer {
    pub id: String,
    pub title: String,
    pub data: DataSet,
}

impl RDataViewer {
    /// A viewer with a fresh comm id for the columns of a data set.
    pub fn new(title: String, columns: Vec<DataColumn>) -> (r: RDataViewer)
        ensures
            r.title == title,
            r.data.id == r.id,
            r.data.columns == columns,
            r.data.row_count == 0,
    {
        let id = new_uuid();
        let data = DataSet { id: id.clone(), title: title.clone(), columns, row_count: 0 };
        RDataViewer { id, title, data }
    }

    /// Registers this viewer's comm, opened by the kernel, on the data
    /// viewer target.
    pub fn open_comm(&self, comms: &mut CommManager) -> (r: CommOpenOutcome)
        requires
            old(comms).wf(),
        ensures
            final(comms).wf(),
            r == old(comms)@.open_outcome(self.id@, data_viewer_target()),
            final(comms)@ == old(comms)@.after_open(
                self.id@,
                data_viewer_target(),
                CommInitiator::BackEnd,
            ),
    {
        let target = String::from_str("positron.dataViewer");
        comms.open(&self.id, &target, CommInitiator::BackEnd)
    }
}

} // verus!
