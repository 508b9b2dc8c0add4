//! Snapshots of the monitor's state as they are broadcast, and what the
//! consumers take from them.

use vstd::prelude::*;

use crate::reading::{HrData, HrmState};

verus! {

/// A state change as broadcast to every consumer.
#[derive(Debug, Clone, Copy, PartialEq, Eq, Structural)]
pub struct ChannelTransferObject {
    /// When the state was observed, in milliseconds since the Unix epoch (UTC).
    pub timestamp_ms: i64,
    /// The state; `None` before any session has reported.
    pub hr_state: Option<HrmState>,
}

impl ChannelTransferObject {
    /// The snapshot consumers see before anything was published.
    pub fn initial(timestamp_ms: i64) -> (r: ChannelTransferObject)
        ensures
            r == (ChannelTransferObject { timestamp_ms, hr_state: None }),
    {
        ChannelTransferObject { timestamp_ms, hr_state: None }
    }

    /// A snapshot of `state`.
    pub fn of_state(timestamp_ms: i64, state: HrmState) -> (r: ChannelTransferObject)
        ensures
            r == (ChannelTransferObject { timestamp_ms, hr_state: Some(state) }),
    {
        ChannelTransferObject { timestamp_ms, hr_state: Some(state) }
    }

    /// The data point a csv log keeps of this snapshot: its time and heart
    /// rate when connected.
    pub fn csv_point(&self) -> (r: Option<(i64, u16)>)
        ensures
            r == match self.hr_state {
                Some(HrmState::Connected(d)) => Some((self.timestamp_ms, d.hr)),
                _ => None,
            },
    {
        match self.hr_state {
            Some(HrmState::Connected(d)) => Some((self.timestamp_ms, d.hr)),
            _ => None,
        }
    }
}

/// Data points waiting to be appended to the csv log.
pub struct CsvBuffer {
    pending: Vec<(i64, u16)>,
    header_written: bool,
}

impl View for CsvBuffer {
    type V = Seq<(i64, u16)>;

    closed spec fn view(&self) -> Seq<(i64, u16)> {
        self.pending@
    }
}

impl CsvBuffer {
    /// Whether the column headers are in the file already.
    pub closed spec fn has_header(&self) -> bool {
        self.header_written
    }

    /// An empty buffer for a file without headers.
    pub fn new() -> (r: CsvBuffer)
        ensures
            r@ == Seq::<(i64, u16)>::empty(),
            !r.has_header(),
    {
        CsvBuffer { pending: Vec::new(), header_written: false }
    }

    /// Keeps the data point of a snapshot, if it has one.
    pub fn record(&mut self, snapshot: &ChannelTransferObject)
        ensures
            final(self)@ == match snapshot.hr_state {
                Some(HrmState::Connected(d)) => old(self)@.push((snapshot.timestamp_ms, d.hr)),
                _ => old(self)@,
            },
            final(self).has_header() == old(self).has_header(),
    {
        if let Some(p) = snapshot.csv_point() {
            self.pending.push(p);
        }
    }

    /// Whether the next save has to write the column headers first.
    pub fn needs_header(&self) -> (r: bool)
        ensures
            r == !self.has_header(),
    {
        !self.header_written
    }

    /// Records that the headers were written and flushed.
    pub fn header_saved(&mut self)
        ensures
            final(self)@ == old(self)@,
            final(self).has_header(),
    {
        self.header_written = true;
    }

    /// The data points to append, oldest first.
    pub fn pending(&self) -> (r: &Vec<(i64, u16)>)
        ensures
            r@ == self@,
    {
        &self.pending
    }

    /// Drops the points once they were appended and flushed.
    pub fn saved(&mut self)
        ensures
            final(self)@ == Seq::<(i64, u16)>::empty(),
            final(self).has_header() == old(self).has_header(),
    {
        self.pending = Vec::new();
    }
}

/// The column headers of the csv log.
pub const CSV_HEADER: [&'static str; 3] = ["timestamp (utc)", "time (local)", "heart rate (bpm)"];

/// Name of the page template shown when none is asked for.
pub const DEFAULT_TEMPLATE: &'static str = "default.html";

/// The optional template name of a page request.
#[derive(Debug, Clone)]
pub struct OptionalTemplateName<T> {
    pub name: Option<T>,
}

impl OptionalTemplateName<String> {
    /// The template to render: the one asked for, else `DEFAULT_TEMPLATE`.
    pub fn template_name(self) -> (r: String)
        ensures
            r@ == match self.name {
                Some(n) => n@,
                None => DEFAULT_TEMPLATE@,
            },
    {
        match self.name {
            Some(n) => n,
            None => DEFAULT_TEMPLATE.to_owned(),
        }
    }
}

/// The values a page template gets from the latest snapshot.
#[derive(Debug, Clone, Copy, PartialEq, Eq, Structural)]
pub enum TemplateValues {
    /// No session has reported yet: no values.
    Unknown,
    /// Disconnected (`hr_disc` is true).
    Disconnected,
    /// Connected (`hr_disc` is false) with the reading's values.
    Connected(HrData),
}

/// What a page template shows for a snapshot.
pub fn template_values(snapshot: &ChannelTransferObject) -> (r: TemplateValues)
    ensures
        r == match snapshot.hr_state {
            None => TemplateValues::Unknown,
            Some(HrmState::Disconnected) => TemplateValues::Disconnected,
            Some(HrmState::Connected(d)) => TemplateValues::Connected(d),
        },
{
    match snapshot.hr_state {
        None => TemplateValues::Unknown,
        Some(HrmState::Disconnected) => TemplateValues::Disconnected,
        Some(HrmState::Connected(d)) => TemplateValues::Connected(d),
    }
}

} // verus!
