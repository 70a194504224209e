//! The image services of the daemon, one for each global configuration.
use crate::daemon::error::{DaemonError, in_context};
use crate::fs_path::{FsPath, bytes_eq, components, lossy_text, render};
use crate::path_laws::law_canonical_spelling;
use crate::text::joined;
use vstd::prelude::*;

verus! {

/// The path under which a file is known: its canonical path where the file
/// system gave one, else the path as it was written.
pub fn known_as(canonical: Option<FsPath>, raw: &FsPath) -> (r: FsPath)
    ensures
        r@ == (match canonical {
            Some(path) => path@,
            None => raw@,
        }),
{
    match canonical {
        Some(path) => path,
        None => raw.clone(),
    }
}

/// One service: the canonical spelling of its configuration and the handle
/// under which the caller keeps it.
#[derive(Debug)]
pub struct ServiceEntry {
    pub spelling: FsPath,
    pub handle: u64,
}

/// The model of a service table: the services in the order in which they were
/// made.
pub type ServicesView = Seq<(Seq<u8>, u64)>;

/// The handle of the service for `spelling`.
pub open spec fn service_of(services: ServicesView, spelling: Seq<u8>) -> Option<u64>
    decreases services.len(),
{
    if services.len() == 0 {
        None
    } else if services.last().0 == spelling {
        Some(services.last().1)
    } else {
        service_of(services.drop_last(), spelling)
    }
}

/// No configuration has two services.
pub open spec fn one_each(services: ServicesView) -> bool {
    forall|i: int, j: int|
        0 <= i < j < services.len() ==> (#[trigger] services[i]).0 != (#[trigger] services[j]).0
}

/// The services that exist.
#[derive(Debug)]
pub struct ServiceTable {
    entries: Vec<ServiceEntry>,
}

impl View for ServiceTable {
    type V = ServicesView;

    closed spec fn view(&self) -> ServicesView {
        self.entries@.map_values(|e: ServiceEntry| (e.spelling@, e.handle))
    }
}

proof fn lemma_service_found(services: ServicesView, spelling: Seq<u8>, at: int)
    requires
        0 <= at < services.len(),
        services[at].0 == spelling,
        forall|k: int| at < k < services.len() ==> (#[trigger] services[k]).0 != spelling,
    ensures
        service_of(services, spelling) == Some(services[at].1),
    decreases services.len(),
{
    if at < services.len() - 1 {
        assert(services[services.len() - 1].0 != spelling);
        lemma_service_found(services.drop_last(), spelling, at);
    }
}

proof fn lemma_service_missing(services: ServicesView, spelling: Seq<u8>)
    requires
        forall|k: int| 0 <= k < services.len() ==> (#[trigger] services[k]).0 != spelling,
    ensures
        service_of(services, spelling) is None,
    decreases services.len(),
{
    if services.len() > 0 {
        assert(services[services.len() - 1].0 != spelling);
        lemma_service_missing(services.drop_last(), spelling);
    }
}

proof fn lemma_service_none(services: ServicesView, spelling: Seq<u8>, k: int)
    requires
        service_of(services, spelling) is None,
        0 <= k < services.len(),
    ensures
        services[k].0 != spelling,
    decreases services.len(),
{
    if k < services.len() - 1 {
        lemma_service_none(services.drop_last(), spelling, k);
    }
}

impl ServiceTable {
    /// A table with the service that every daemon starts with.
    pub fn new(config: &FsPath, handle: u64) -> (r: ServiceTable)
        ensures
            r@ == seq![(render(components(config@)), handle)],
            one_each(r@),
    {
        let mut entries: Vec<ServiceEntry> = Vec::new();
        entries.push(ServiceEntry { spelling: config.canonical_spelling(), handle });
        let r = ServiceTable { entries };
        assert(r@ =~= seq![(render(components(config@)), handle)]);
        r
    }

    /// The handle of the service for `config`, if there is one.
    pub fn lookup(&self, config: &FsPath) -> (r: Option<u64>)
        ensures
            r == service_of(self@, render(components(config@))),
    {
        let spelling: FsPath = config.canonical_spelling();
        let mut i: usize = self.entries.len();
        while i > 0
            invariant
                i <= self.entries@.len(),
                spelling@ == render(components(config@)),
                forall|k: int| i <= k < self@.len() ==> (#[trigger] self@[k]).0 != spelling@,
            decreases i,
        {
            i = i - 1;
            assert(self@[i as int] == (
                self.entries@[i as int].spelling@,
                self.entries@[i as int].handle,
            ));
            if bytes_eq(&self.entries[i].spelling.bytes, &spelling.bytes) {
                proof {
                    lemma_service_found(self@, spelling@, i as int);
                }
                return Some(self.entries[i].handle);
            }
        }
        proof {
            lemma_service_missing(self@, spelling@);
        }
        None
    }

    /// Adds the service that was made for `config`, which had none.
    pub fn register(&mut self, config: &FsPath, handle: u64)
        requires
            service_of(old(self)@, render(components(config@))) is None,
        ensures
            final(self)@ == old(self)@.push((render(components(config@)), handle)),
            one_each(old(self)@) ==> one_each(final(self)@),
    {
        self.entries.push(ServiceEntry { spelling: config.canonical_spelling(), handle });
        assert(self@ =~= old(self)@.push((render(components(config@)), handle)));
        proof {
            assert forall|k: int| 0 <= k < old(self)@.len() implies (#[trigger] old(self)@[k]).0
                != render(components(config@)) by {
                lemma_service_none(old(self)@, render(components(config@)), k);
            }
        }
    }
}

/// A service that was registered is found again, and registering it changes
/// nothing for any other configuration.
pub proof fn law_registered_service_is_found(
    services: ServicesView,
    spelling: Seq<u8>,
    handle: u64,
    other: Seq<u8>,
)
    ensures
        service_of(services.push((spelling, handle)), spelling) == Some(handle),
        other != spelling ==> service_of(services.push((spelling, handle)), other) == service_of(
            services,
            other,
        ),
{
    assert(services.push((spelling, handle)).drop_last() =~= services);
}

/// Two configurations have one service exactly when they are one path, however
/// it is spelled.
pub proof fn law_services_are_told_apart(services: ServicesView, a: Seq<u8>, b: Seq<u8>, handle: u64)
    ensures
        components(a) == components(b) ==> service_of(
            services.push((render(components(a)), handle)),
            render(components(b)),
        ) == Some(handle),
        components(a) != components(b) ==> service_of(
            services.push((render(components(a)), handle)),
            render(components(b)),
        ) == service_of(services, render(components(b))),
{
    law_canonical_spelling(a, b);
    law_registered_service_is_found(
        services,
        render(components(a)),
        handle,
        render(components(b)),
    );
}

/// The error of a service that could not be made for `config`.
pub fn service_failed(config: &FsPath, error: DaemonError) -> (r: DaemonError)
    ensures
        r@ == in_context(
            "create ImageService from global config: "@ + lossy_text(config@),
            error@,
        ),
{
    let context: String = joined(
        "create ImageService from global config: ",
        config.to_text_lossy().as_str(),
    );
    error.context(context.as_str())
}

} // verus!
