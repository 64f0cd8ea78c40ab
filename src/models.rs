use vstd::prelude::*;

verus! {

/// One net-control session: who ran it, on which frequency, and when.
#[derive(Clone, Debug, PartialEq, Eq)]
pub struct NetSession {
    pub id: String,
    pub name: String,
    pub frequency: String,
    pub net_control_op: String,
    pub net_control_name: String,
    pub date_time: String,
    pub end_time: Option<String>,
    pub status: String,
}

/// A station that checked in to a session.
#[derive(Clone, Debug, PartialEq, Eq)]
pub struct Participant {
    pub id: String,
    pub callsign: String,
    pub tactical_call: String,
    pub name: String,
    pub location: String,
    pub check_in_time: String,
    pub check_in_number: i32,
}

/// One line of the traffic log of a session.
#[derive(Clone, Debug, PartialEq, Eq)]
pub struct LogEntry {
    pub id: String,
    pub entry_number: i32,
    pub time: String,
    pub from_callsign: String,
    pub to_callsign: String,
    pub message: String,
}

/// A session together with its check-ins and its log, each in its own order.
#[derive(Clone, Debug, PartialEq, Eq)]
pub struct SessionData {
    pub session: NetSession,
    pub participants: Vec<Participant>,
    pub log_entries: Vec<LogEntry>,
}

/// What the callsign directory knows of a station, in the shape the log uses.
#[derive(Clone, Debug, PartialEq, Eq)]
pub struct CallsignLookupResult {
    pub callsign: String,
    pub name: String,
    pub city: String,
    pub state: String,
    pub country: String,
    pub grid: String,
}

/// A copy of an optional string that equals the original.
pub fn copy_opt_string(s: &Option<String>) -> (r: Option<String>)
    ensures
        r == *s,
{
    match s {
        Some(v) => Some(v.clone()),
        None => None,
    }
}

impl NetSession {
    /// A field-for-field copy.
    pub fn duplicate(&self) -> (r: NetSession)
        ensures
            r == *self,
    {
        NetSession {
            id: self.id.clone(),
            name: self.name.clone(),
            frequency: self.frequency.clone(),
            net_control_op: self.net_control_op.clone(),
            net_control_name: self.net_control_name.clone(),
            date_time: self.date_time.clone(),
            end_time: copy_opt_string(&self.end_time),
            status: self.status.clone(),
        }
    }
}

impl Participant {
    /// A field-for-field copy.
    pub fn duplicate(&self) -> (r: Participant)
        ensures
            r == *self,
    {
        Participant {
            id: self.id.clone(),
            callsign: self.callsign.clone(),
            tactical_call: self.tactical_call.clone(),
            name: self.name.clone(),
            location: self.location.clone(),
            check_in_time: self.check_in_time.clone(),
            check_in_number: self.check_in_number,
        }
    }
}

impl LogEntry {
    /// A field-for-field copy.
    pub fn duplicate(&self) -> (r: LogEntry)
        ensures
            r == *self,
    {
        LogEntry {
            id: self.id.clone(),
            entry_number: self.entry_number,
            time: self.time.clone(),
            from_callsign: self.from_callsign.clone(),
            to_callsign: self.to_callsign.clone(),
            message: self.message.clone(),
        }
    }
}

impl CallsignLookupResult {
    /// A field-for-field copy.
    pub fn duplicate(&self) -> (r: CallsignLookupResult)
        ensures
            r == *self,
    {
        CallsignLookupResult {
            callsign: self.callsign.clone(),
            name: self.name.clone(),
            city: self.city.clone(),
            state: self.state.clone(),
            country: self.country.clone(),
            grid: self.grid.clone(),
        }
    }
}

} // verus!
