use vstd::prelude::*;

use crate::interval::{Interval, NANOS_PER_SEC};
use crate::manager::{manager_of, ReporterManager};

verus! {

/// Seconds between two reports unless the builder sets another interval.
pub const DEFAULT_INTERVAL_SECS: u64 = 30;

/// The configuration of a reporter, as values.
pub struct ReporterModel {
    /// Base URL of the status page.
    pub url: Seq<char>,
    /// Secret that authenticates the reports.
    pub token: Seq<char>,
    pub probe_id: Option<Seq<char>>,
    pub node_id: Option<Seq<char>>,
    pub replica_id: Option<Seq<char>>,
    /// Time between two reports, in nanoseconds.
    pub interval: nat,
}

impl ReporterModel {
    /// All three identifiers are set.
    pub open spec fn is_complete(self) -> bool {
        self.probe_id is Some && self.node_id is Some && self.replica_id is Some
    }
}

/// The view of an identifier that may be unset.
pub open spec fn id_view(id: Option<&str>) -> Option<Seq<char>> {
    match id {
        Some(s) => Some(s@),
        None => None,
    }
}

/// The identifier that a build found unset.
#[derive(Clone, Copy, Debug, PartialEq, Eq)]
pub enum MissingField {
    ProbeId,
    NodeId,
    ReplicaId,
}

/// A reporter's frozen configuration.
pub struct Reporter<'a> {
    url: &'a str,
    token: &'a str,
    probe_id: Option<&'a str>,
    node_id: Option<&'a str>,
    replica_id: Option<&'a str>,
    interval: Interval,
}

/// Collects a reporter's configuration before it is frozen.
pub struct ReporterBuilder<'a> {
    reporter: Reporter<'a>,
}

impl<'a> View for Reporter<'a> {
    type V = ReporterModel;

    closed spec fn view(&self) -> ReporterModel {
        ReporterModel {
            url: self.url@,
            token: self.token@,
            probe_id: id_view(self.probe_id),
            node_id: id_view(self.node_id),
            replica_id: id_view(self.replica_id),
            interval: self.interval@,
        }
    }
}

impl<'a> View for ReporterBuilder<'a> {
    type V = ReporterModel;

    closed spec fn view(&self) -> ReporterModel {
        self.reporter@
    }
}

impl<'a> Reporter<'a> {
    /// Starts the configuration of a reporter that reports to `url` with
    /// `token`: no identifier set, and the default interval.
    pub fn new(url: &'a str, token: &'a str) -> (r: ReporterBuilder<'a>)
        ensures
            r@ == (ReporterModel {
                url: url@,
                token: token@,
                probe_id: None,
                node_id: None,
                replica_id: None,
                interval: DEFAULT_INTERVAL_SECS as nat * NANOS_PER_SEC as nat,
            }),
    {
        ReporterBuilder {
            reporter: Reporter {
                url,
                token,
                probe_id: None,
                node_id: None,
                replica_id: None,
                interval: Interval::from_secs(DEFAULT_INTERVAL_SECS),
            },
        }
    }

    /// The state that the report loop works from: the report target, the
    /// credential and the interval. There is one exactly when all three
    /// identifiers are set.
    pub fn manager(&self) -> (r: Option<ReporterManager>)
        ensures
            r is Some <==> self@.is_complete(),
            r matches Some(m) ==> m@ == manager_of(self@),
    {
        match (self.probe_id, self.node_id, self.replica_id) {
            (Some(probe_id), Some(node_id), Some(replica_id)) => Some(
                ReporterManager::new(self.url, self.token, probe_id, node_id, replica_id, self.interval),
            ),
            _ => None,
        }
    }
}

impl<'a> ReporterBuilder<'a> {
    /// Freezes the configuration; every identifier must be set.
    pub fn build(self) -> (r: Reporter<'a>)
        requires
            self@.is_complete(),
        ensures
            r@ == self@,
    {
        self.reporter
    }

    /// Freezes the configuration, or names the first identifier, in the
    /// order probe, node, replica, that is unset.
    pub fn try_build(self) -> (r: Result<Reporter<'a>, MissingField>)
        ensures
            r is Ok <==> self@.is_complete(),
            r matches Ok(rep) ==> rep@ == self@,
            r == Err::<Reporter<'a>, MissingField>(MissingField::ProbeId) <==> self@.probe_id is None,
            r == Err::<Reporter<'a>, MissingField>(MissingField::NodeId) <==> (self@.probe_id is Some
                && self@.node_id is None),
            r == Err::<Reporter<'a>, MissingField>(MissingField::ReplicaId) <==> (self@.probe_id is Some
                && self@.node_id is Some && self@.replica_id is None),
    {
        if self.reporter.probe_id.is_none() {
            Err(MissingField::ProbeId)
        } else if self.reporter.node_id.is_none() {
            Err(MissingField::NodeId)
        } else if self.reporter.replica_id.is_none() {
            Err(MissingField::ReplicaId)
        } else {
            Ok(self.reporter)
        }
    }

    /// Sets the probe the reports belong to.
    pub fn probe_id(self, probe_id: &'a str) -> (r: ReporterBuilder<'a>)
        ensures
            r@ == (ReporterModel { probe_id: Some(probe_id@), ..self@ }),
    {
        let mut b = self;
        b.reporter.probe_id = Some(probe_id);
        b
    }

    /// Sets the node the reports belong to.
    pub fn node_id(self, node_id: &'a str) -> (r: ReporterBuilder<'a>)
        ensures
            r@ == (ReporterModel { node_id: Some(node_id@), ..self@ }),
    {
        let mut b = self;
        b.reporter.node_id = Some(node_id);
        b
    }

    /// Sets the identifier of this replica.
    pub fn replica_id(self, replica_id: &'a str) -> (r: ReporterBuilder<'a>)
        ensures
            r@ == (ReporterModel { replica_id: Some(replica_id@), ..self@ }),
    {
        let mut b = self;
        b.reporter.replica_id = Some(replica_id);
        b
    }

    /// Sets the time between two reports.
    pub fn interval(self, interval: Interval) -> (r: ReporterBuilder<'a>)
        ensures
            r@ == (ReporterModel { interval: interval@, ..self@ }),
    {
        let mut b = self;
        b.reporter.interval = interval;
        b
    }
}

} // verus!
