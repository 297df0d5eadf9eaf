//! Decisions about the service registration: what to do when the service
//! cannot be opened, and whether an enumeration of the installed services
//! shows the service.

use vstd::prelude::*;
use crate::text::{decode_utf16, law_utf16_round_trip, same_text, utf16_encode, utf16_strict};
use crate::win32::{ERROR_ACCESS_DENIED, ERROR_MORE_DATA, ERROR_SERVICE_DOES_NOT_EXIST};

verus! {

/// The name under which the service is installed.
pub const FSC_SERVICE_NAME: &'static str = "fscserv";
/// The text added to the log message when the service control manager
/// refuses access.
pub const ADMIN_HINT: &'static str = " Are you admin?";

/// The text added to the message that the service control manager could
/// not be opened: a hint to run as administrator when access was denied,
/// nothing otherwise.
pub fn manager_error_hint(code: u32) -> (hint: &'static str)
    ensures
        hint@ == (if code == ERROR_ACCESS_DENIED { ADMIN_HINT@ } else { ""@ }),
{
    if code == ERROR_ACCESS_DENIED {
        ADMIN_HINT
    } else {
        ""
    }
}

/// What to do when the service could not be opened.
#[derive(Clone, Copy, Debug, PartialEq, Eq, Structural)]
pub enum ServiceOpenFailure {
    /// The service does not exist: create it.
    CreateService,
    /// Give up with this error code.
    Fail { code: u32 },
}

/// The answer to a failure to open the service: create it where it does
/// not exist, fail with the error otherwise.
pub fn service_open_failure(code: u32) -> (next: ServiceOpenFailure)
    ensures
        next == (if code == ERROR_SERVICE_DOES_NOT_EXIST {
            ServiceOpenFailure::CreateService
        } else {
            ServiceOpenFailure::Fail { code }
        }),
{
    if code != ERROR_SERVICE_DOES_NOT_EXIST {
        ServiceOpenFailure::Fail { code }
    } else {
        ServiceOpenFailure::CreateService
    }
}

/// Whether a service name, as UTF-16 units, is that of the service (names
/// that are not valid UTF-16 are passed over).
pub open spec fn names_service(units: Seq<u16>) -> bool {
    utf16_strict(units) == Some(FSC_SERVICE_NAME@)
}

/// A service name that is the UTF-16 encoding of a text names the service
/// exactly when that text is `fscserv`.
pub proof fn law_encoded_service_name_is_recognised(name: Seq<char>)
    ensures
        names_service(utf16_encode(name)) <==> name == FSC_SERVICE_NAME@,
{
    law_utf16_round_trip(name);
}

/// Whether a batch of service names holds the service's.
pub open spec fn batch_has_service(names: Seq<Vec<u16>>) -> bool {
    exists|i: int| 0 <= i < names.len() && names_service(#[trigger] names[i]@)
}

/// What an enumeration of the services does after a batch.
#[derive(Clone, Copy, Debug, PartialEq, Eq, Structural)]
pub enum EnumStep {
    /// No more services: the enumeration is over, and the service was
    /// found or not.
    Finished { found: bool },
    /// The enumeration failed with this error code.
    Failed { code: u32 },
    /// Ask for the next batch.
    Continue,
}

/// What an enumeration of the services has found so far.
#[derive(Clone, Copy, Debug, PartialEq, Eq, Structural)]
pub struct ServiceSearch {
    pub found: bool,
}

/// The step that a batch makes: `returned` services were returned, the
/// call failed with `error` (or succeeded), and `names` are their names.
pub open spec fn search_step(s: ServiceSearch, returned: u32, error: Option<u32>, names: Seq<Vec<u16>>) -> (
    ServiceSearch,
    EnumStep,
) {
    if returned == 0 {
        (s, EnumStep::Finished { found: s.found })
    } else if error is Some && error->0 != ERROR_MORE_DATA {
        (s, EnumStep::Failed { code: error->0 })
    } else {
        (ServiceSearch { found: s.found || batch_has_service(names) }, EnumStep::Continue)
    }
}

impl ServiceSearch {
    /// A search that has found nothing yet.
    pub fn new() -> (s: ServiceSearch)
        ensures
            !s.found,
    {
        ServiceSearch { found: false }
    }

    /// Takes one batch of the enumeration into account: an empty batch ends
    /// it, a failure other than "more data" fails it, and otherwise the
    /// service is found if one of the names is the service's.
    pub fn take_batch(&mut self, returned: u32, error: Option<u32>, names: &Vec<Vec<u16>>) -> (step: EnumStep)
        ensures
            (*final(self), step) == search_step(*old(self), returned, error, names@),
    {
        if returned == 0 {
            return EnumStep::Finished { found: self.found };
        }
        if let Some(code) = error {
            if code != ERROR_MORE_DATA {
                return EnumStep::Failed { code };
            }
        }
        let mut i: usize = 0;
        let mut in_batch = false;
        while i < names.len()
            invariant
                i <= names@.len(),
                !in_batch ==> forall|j: int| 0 <= j < i ==> !names_service(#[trigger] names@[j]@),
                in_batch ==> batch_has_service(names@),
            ensures
                !in_batch ==> forall|j: int|
                    0 <= j < names@.len() ==> !names_service(#[trigger] names@[j]@),
                in_batch ==> batch_has_service(names@),
            decreases names@.len() - i,
        {
            if let Some(name) = decode_utf16(names[i].as_slice()) {
                if same_text(name.as_str(), FSC_SERVICE_NAME) {
                    assert(names_service(names@[i as int]@));
                    in_batch = true;
                    break;
                }
            }
            i = i + 1;
        }
        self.found = self.found || in_batch;
        EnumStep::Continue
    }
}

/// The service search run through batches (returned count, error, names).
pub open spec fn search_run(s: ServiceSearch, batches: Seq<(u32, Option<u32>, Seq<Vec<u16>>)>) -> (
    ServiceSearch,
    Seq<EnumStep>,
)
    decreases batches.len(),
{
    if batches.len() == 0 {
        (s, Seq::empty())
    } else {
        let b = batches[0];
        let (s1, step) = search_step(s, b.0, b.1, b.2);
        let rest = search_run(s1, batches.drop_first());
        (rest.0, seq![step] + rest.1)
    }
}

/// An enumeration that ends on an empty batch after some batches that all
/// succeeded (or only had more data) reports the service found exactly
/// when one of those batches held its name.
pub proof fn law_search_finds_exactly_listed_service(
    batches: Seq<(u32, Option<u32>, Seq<Vec<u16>>)>,
)
    requires
        batches.len() > 0,
        batches.last().0 == 0,
        forall|i: int|
            0 <= i < batches.len() - 1 ==> (#[trigger] batches[i]).0 != 0 && (batches[i].1 is None
                || batches[i].1->0 == ERROR_MORE_DATA),
    ensures
        search_run(ServiceSearch { found: false }, batches).1.last() == (EnumStep::Finished {
            found: exists|i: int| 0 <= i < batches.len() - 1 && batch_has_service(#[trigger] batches[i].2),
        }),
{
    lemma_search_run_ends(false, batches);
}

proof fn lemma_search_run_ends(found: bool, batches: Seq<(u32, Option<u32>, Seq<Vec<u16>>)>)
    requires
        batches.len() > 0,
        batches.last().0 == 0,
        forall|i: int|
            0 <= i < batches.len() - 1 ==> (#[trigger] batches[i]).0 != 0 && (batches[i].1 is None
                || batches[i].1->0 == ERROR_MORE_DATA),
    ensures
        search_run(ServiceSearch { found }, batches).1.len() == batches.len(),
        search_run(ServiceSearch { found }, batches).1.last() == (EnumStep::Finished {
            found: found || exists|i: int|
                0 <= i < batches.len() - 1 && batch_has_service(#[trigger] batches[i].2),
        }),
    decreases batches.len(),
{
    let s = ServiceSearch { found };
    let b = batches[0];
    if batches.len() == 1 {
        assert(b.0 == 0);
        assert(batches.drop_first().len() == 0);
        assert(search_run(s, batches).1 =~= seq![EnumStep::Finished { found }]);
    } else {
        let rest = batches.drop_first();
        assert(b.0 != 0);
        let found1 = found || batch_has_service(b.2);
        assert forall|i: int| 0 <= i < rest.len() - 1 implies (#[trigger] rest[i]).0 != 0 && (
        rest[i].1 is None || rest[i].1->0 == ERROR_MORE_DATA) by {
            assert(rest[i] == batches[i + 1]);
        }
        lemma_search_run_ends(found1, rest);
        let tail = search_run(ServiceSearch { found: found1 }, rest).1;
        assert(search_run(s, batches).1 == seq![EnumStep::Continue] + tail);
        assert(rest.last() == batches.last());
        let any_rest = exists|i: int| 0 <= i < rest.len() - 1 && batch_has_service(#[trigger] rest[i].2);
        let any_all = exists|i: int| 0 <= i < batches.len() - 1 && batch_has_service(#[trigger] batches[i].2);
        if any_rest {
            let i = choose|i: int| 0 <= i < rest.len() - 1 && batch_has_service(#[trigger] rest[i].2);
            assert(rest[i] == batches[i + 1]);
        }
        if any_all {
            let i = choose|i: int| 0 <= i < batches.len() - 1 && batch_has_service(#[trigger] batches[i].2);
            if i > 0 {
                assert(rest[i - 1] == batches[i]);
            }
        }
        assert((found1 || any_rest) == (found || any_all));
    }
}

} // verus!
