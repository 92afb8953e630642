//! Capability descriptor: a service identity and the attributes it exposes,
//! and the all-or-nothing check of a discovered service against it.
use vstd::prelude::*;
use vstd::string::StringExecFns;

verus! {

/// Read behaviour of an attribute: whether peers may read its value.
#[derive(Clone, Copy, Debug, PartialEq, Eq, Structural)]
pub struct ReadPolicy {
    pub read: bool,
}

/// Write behaviour of an attribute.
#[derive(Clone, Copy, Debug, PartialEq, Eq, Structural)]
pub struct WritePolicy {
    pub write: bool,
    pub write_without_response: bool,
    /// Writes arrive as a byte stream rather than one call each.
    pub io: bool,
}

/// Notify behaviour of an attribute.
#[derive(Clone, Copy, Debug, PartialEq, Eq, Structural)]
pub struct NotifyPolicy {
    pub notify: bool,
    /// Notifications leave as a byte stream rather than one call each.
    pub io: bool,
}

/// Why a discovered device was not bound.
#[derive(Clone, Copy, Debug, PartialEq, Eq, Structural)]
pub enum Rejection {
    /// The device does not advertise the descriptor's service.
    ServiceNotAdvertised,
    /// After connecting, no service has the descriptor's identifier.
    ServiceNotFound,
    /// The service exposes an attribute the descriptor does not declare.
    UnknownAttribute,
    /// The service lacks an attribute the descriptor declares.
    MissingAttribute,
    /// Every pairing attempt failed.
    PairingExhausted,
    /// Every connect attempt failed.
    ConnectExhausted,
    /// A query on the device failed.
    StackFailure,
}

/// Whether a rejection is a failure of the device (as opposed to a mismatch).
pub open spec fn is_failure(r: Rejection) -> bool {
    r == Rejection::PairingExhausted || r == Rejection::ConnectExhausted || r
        == Rejection::StackFailure
}

impl Rejection {
    /// Whether the device failed (after which it is also forgotten), rather
    /// than merely not matching.
    pub fn is_failure(&self) -> (r: bool)
        ensures
            r == is_failure(*self),
    {
        match self {
            Rejection::PairingExhausted | Rejection::ConnectExhausted | Rejection::StackFailure => true,
            _ => false,
        }
    }
}

pub open spec fn distinct(ids: Seq<u128>) -> bool {
    forall|i: int, j: int| 0 <= i < ids.len() && 0 <= j < ids.len() && i != j ==> ids[i] != ids[j]
}

/// Two identifier lists hold the same identifiers, whatever their order or
/// repetitions.
pub open spec fn same_members(a: Seq<u128>, b: Seq<u128>) -> bool {
    forall|x: u128| a.contains(x) <==> b.contains(x)
}

/// Index of the last occurrence of `x` in `s`, or -1.
pub open spec fn last_index(s: Seq<u128>, x: u128) -> int
    decreases s.len(),
{
    if s.len() == 0 {
        -1
    } else if s.last() == x {
        s.len() - 1
    } else {
        last_index(s.drop_last(), x)
    }
}

/// Outcome of checking the attributes a service exposes against the declared
/// ones: an unknown attribute rejects first, then a missing one; otherwise
/// each declared attribute is bound to the last exposed attribute with its
/// identifier.
pub open spec fn attribute_match(declared: Seq<u128>, exposed: Seq<u128>) -> Result<Seq<usize>, Rejection> {
    if exists|j: int| 0 <= j < exposed.len() && !declared.contains(#[trigger] exposed[j]) {
        Err(Rejection::UnknownAttribute)
    } else if exists|k: int| 0 <= k < declared.len() && !exposed.contains(#[trigger] declared[k]) {
        Err(Rejection::MissingAttribute)
    } else {
        Ok(Seq::new(declared.len(), |k: int| last_index(exposed, declared[k]) as usize))
    }
}

proof fn lemma_last_index(s: Seq<u128>, x: u128)
    ensures
        -1 <= last_index(s, x) < s.len(),
        last_index(s, x) >= 0 ==> s[last_index(s, x)] == x,
        last_index(s, x) == -1 <==> !s.contains(x),
    decreases s.len(),
{
    if s.len() > 0 {
        lemma_last_index(s.drop_last(), x);
        if s.last() != x {
            if s.contains(x) {
                let i = choose|i: int| 0 <= i < s.len() && s[i] == x;
                assert(s.drop_last()[i] == x);
            }
        } else {
            assert(s[s.len() - 1] == x);
        }
    }
}

/// The declared shape of a service: its identifier, display name, the
/// identifiers of its attributes (duplicate-free, in order) and each
/// attribute's read, write and notify behaviour. Immutable once built.
pub struct ApplicationDescriptor {
    service_uuid: u128,
    service_name: String,
    characteristics_uuids: Vec<u128>,
    read_functions: Vec<Option<ReadPolicy>>,
    write_functions: Vec<Option<WritePolicy>>,
    notify_functions: Vec<Option<NotifyPolicy>>,
}

impl ApplicationDescriptor {
    pub closed spec fn service_id(&self) -> u128 {
        self.service_uuid
    }

    pub closed spec fn name(&self) -> Seq<char> {
        self.service_name@
    }

    pub closed spec fn attribute_ids(&self) -> Seq<u128> {
        self.characteristics_uuids@
    }

    pub closed spec fn read_policies(&self) -> Seq<Option<ReadPolicy>> {
        self.read_functions@
    }

    pub closed spec fn write_policies(&self) -> Seq<Option<WritePolicy>> {
        self.write_functions@
    }

    pub closed spec fn notify_policies(&self) -> Seq<Option<NotifyPolicy>> {
        self.notify_functions@
    }

    /// Attribute identifiers are distinct and each has one behaviour of each
    /// kind.
    pub open spec fn wf(&self) -> bool {
        &&& distinct(self.attribute_ids())
        &&& self.read_policies().len() == self.attribute_ids().len()
        &&& self.write_policies().len() == self.attribute_ids().len()
        &&& self.notify_policies().len() == self.attribute_ids().len()
    }

    pub fn new(
        service_uuid: u128,
        service_name: &str,
        characteristics_uuids: Vec<u128>,
        read_functions: Vec<Option<ReadPolicy>>,
        write_functions: Vec<Option<WritePolicy>>,
        notify_functions: Vec<Option<NotifyPolicy>>,
    ) -> (r: Self)
        requires
            distinct(characteristics_uuids@),
            read_functions@.len() == characteristics_uuids@.len(),
            write_functions@.len() == characteristics_uuids@.len(),
            notify_functions@.len() == characteristics_uuids@.len(),
        ensures
            r.wf(),
            r.service_id() == service_uuid,
            r.name() == service_name@,
            r.attribute_ids() == characteristics_uuids@,
            r.read_policies() == read_functions@,
            r.write_policies() == write_functions@,
            r.notify_policies() == notify_functions@,
    {
        ApplicationDescriptor {
            service_uuid,
            service_name: String::from_str(service_name),
            characteristics_uuids,
            read_functions,
            write_functions,
            notify_functions,
        }
    }

    /// A descriptor whose attributes declare no behaviour of their own.
    pub fn default_descriptor(service_uuid: u128, service_name: &str, characteristics_uuids: Vec<u128>) -> (r: Self)
        requires
            distinct(characteristics_uuids@),
        ensures
            r.wf(),
            r.service_id() == service_uuid,
            r.name() == service_name@,
            r.attribute_ids() == characteristics_uuids@,
            forall|i: int| 0 <= i < r.attribute_ids().len() ==> {
                &&& #[trigger] r.read_policies()[i] is None
                &&& r.write_policies()[i] is None
                &&& r.notify_policies()[i] is None
            },
    {
        let mut read_functions: Vec<Option<ReadPolicy>> = Vec::new();
        let mut write_functions: Vec<Option<WritePolicy>> = Vec::new();
        let mut notify_functions: Vec<Option<NotifyPolicy>> = Vec::new();
        let n = characteristics_uuids.len();
        let mut i: usize = 0;
        while i < n
            invariant
                n == characteristics_uuids@.len(),
                i <= n,
                read_functions@.len() == i,
                write_functions@.len() == i,
                notify_functions@.len() == i,
                forall|j: int| 0 <= j < i ==> {
                    &&& #[trigger] read_functions@[j] is None
                    &&& write_functions@[j] is None
                    &&& notify_functions@[j] is None
                },
            decreases n - i,
        {
            read_functions.push(None);
            write_functions.push(None);
            notify_functions.push(None);
            i = i + 1;
        }
        ApplicationDescriptor::new(
            service_uuid,
            service_name,
            characteristics_uuids,
            read_functions,
            write_functions,
            notify_functions,
        )
    }

    /// Read behaviour of an attribute that declares none of its own.
    pub fn default_read() -> (r: Option<ReadPolicy>)
        ensures
            r is None,
    {
        None
    }

    /// Write behaviour of a command attribute: writes without response,
    /// delivered as a byte stream.
    pub fn default_write() -> (r: Option<WritePolicy>)
        ensures
            r == Some(WritePolicy { write: false, write_without_response: true, io: true }),
    {
        Some(WritePolicy { write: false, write_without_response: true, io: true })
    }

    /// Notify behaviour of a reply attribute: notifications sent as a byte
    /// stream.
    pub fn default_notify() -> (r: Option<NotifyPolicy>)
        ensures
            r == Some(NotifyPolicy { notify: true, io: true }),
    {
        Some(NotifyPolicy { notify: true, io: true })
    }

    pub fn service_uuid(&self) -> (r: u128)
        ensures
            r == self.service_id(),
    {
        self.service_uuid
    }

    pub fn service_name(&self) -> (r: &str)
        ensures
            r@ == self.name(),
    {
        self.service_name.as_str()
    }

    pub fn characteristics_uuids(&self) -> (r: &Vec<u128>)
        ensures
            r@ == self.attribute_ids(),
    {
        &self.characteristics_uuids
    }

    pub fn read_policy(&self, i: usize) -> (r: Option<ReadPolicy>)
        requires
            self.wf(),
            i < self.attribute_ids().len(),
        ensures
            r == self.read_policies()[i as int],
    {
        self.read_functions[i]
    }

    pub fn write_policy(&self, i: usize) -> (r: Option<WritePolicy>)
        requires
            self.wf(),
            i < self.attribute_ids().len(),
        ensures
            r == self.write_policies()[i as int],
    {
        self.write_functions[i]
    }

    pub fn notify_policy(&self, i: usize) -> (r: Option<NotifyPolicy>)
        requires
            self.wf(),
            i < self.attribute_ids().len(),
        ensures
            r == self.notify_policies()[i as int],
    {
        self.notify_functions[i]
    }

    /// Checks the attributes a discovered service exposes against the
    /// declared ones. Every exposed attribute must be declared (else the whole
    /// service is rejected at once), and every declared one must have been
    /// seen: the identifier sets must be equal. On success, the result gives
    /// for each declared attribute the index of the exposed attribute bound to
    /// it.
    pub fn match_attributes(&self, exposed: &Vec<u128>) -> (r: Result<Vec<usize>, Rejection>)
        requires
            self.wf(),
        ensures
            r matches Ok(slots) ==> attribute_match(self.attribute_ids(), exposed@) == Ok::<
                Seq<usize>,
                Rejection,
            >(slots@),
            r matches Err(e) ==> attribute_match(self.attribute_ids(), exposed@) == Err::<
                Seq<usize>,
                Rejection,
            >(e),
    {
        let ghost declared = self.attribute_ids();
        let n = self.characteristics_uuids.len();
        let m = exposed.len();
        let mut slots: Vec<Option<usize>> = Vec::new();
        let mut k: usize = 0;
        while k < n
            invariant
                n == declared.len(),
                k <= n,
                slots@.len() == k,
                forall|i: int| 0 <= i < k ==> #[trigger] slots@[i] is None,
            decreases n - k,
        {
            slots.push(None);
            k = k + 1;
        }
        let mut j: usize = 0;
        while j < m
            invariant
                declared == self.attribute_ids(),
                self.wf(),
                n == declared.len(),
                m == exposed@.len(),
                j <= m,
                slots@.len() == n,
                forall|s: int| 0 <= s < j ==> declared.contains(#[trigger] exposed@[s]),
                forall|i: int|
                    0 <= i < n ==> (#[trigger] slots@[i] matches Some(s) ==> s as int
                        == last_index(exposed@.take(j as int), declared[i]))
                        && (slots@[i] is None ==> last_index(exposed@.take(j as int), declared[i])
                        == -1),
            decreases m - j,
        {
            let id = exposed[j];
            proof {
                assert(exposed@.take(j + 1).drop_last() =~= exposed@.take(j as int));
                assert(exposed@.take(j + 1).last() == id);
            }
            match position(&self.characteristics_uuids, id) {
                None => {
                    proof {
                        assert(!declared.contains(exposed@[j as int]));
                    }
                    return Err(Rejection::UnknownAttribute);
                },
                Some(p) => {
                    slots.set(p, Some(j));
                    assert forall|i: int| 0 <= i < n implies (#[trigger] slots@[i] matches Some(
                        s,
                    ) ==> s as int == last_index(exposed@.take(j + 1), declared[i])) && (
                    slots@[i] is None ==> last_index(exposed@.take(j + 1), declared[i]) == -1) by {
                        if i != p {
                            assert(declared[i] != declared[p as int]);
                        }
                    }
                },
            }
            j = j + 1;
        }
        proof {
            assert(exposed@.take(m as int) =~= exposed@);
            assert(!(exists|s: int| 0 <= s < exposed@.len() && !declared.contains(#[trigger] exposed@[s])));
        }
        let mut result: Vec<usize> = Vec::new();
        let mut i: usize = 0;
        while i < n
            invariant
                declared == self.attribute_ids(),
                n == declared.len(),
                slots@.len() == n,
                i <= n,
                result@.len() == i,
                exposed@.take(m as int) == exposed@,
                m == exposed@.len(),
                forall|q: int|
                    0 <= q < n ==> (#[trigger] slots@[q] matches Some(s) ==> s as int
                        == last_index(exposed@.take(m as int), declared[q]))
                        && (slots@[q] is None ==> last_index(exposed@.take(m as int), declared[q])
                        == -1),
                forall|q: int| 0 <= q < i ==> #[trigger] result@[q] as int == last_index(exposed@, declared[q]),
                forall|q: int| 0 <= q < i ==> exposed@.contains(#[trigger] declared[q]),
                forall|s: int| 0 <= s < m ==> declared.contains(#[trigger] exposed@[s]),
            decreases n - i,
        {
            match slots[i] {
                None => {
                    proof {
                        lemma_last_index(exposed@, declared[i as int]);
                        assert(!exposed@.contains(declared[i as int]));
                        assert(!(exists|s: int| 0 <= s < exposed@.len() && !declared.contains(#[trigger] exposed@[s])));
                    }
                    return Err(Rejection::MissingAttribute);
                },
                Some(s) => {
                    proof {
                        lemma_last_index(exposed@, declared[i as int]);
                    }
                    result.push(s);
                },
            }
            i = i + 1;
        }
        proof {
            assert(!(exists|q: int| 0 <= q < declared.len() && !exposed@.contains(#[trigger] declared[q])));
            assert(result@ =~= Seq::new(declared.len(), |q: int| last_index(exposed@, declared[q]) as usize));
        }
        Ok(result)
    }
}

/// Index of `id` in `ids`, if it occurs there.
pub fn position(ids: &Vec<u128>, id: u128) -> (r: Option<usize>)
    ensures
        r matches Some(p) ==> p < ids@.len() && ids@[p as int] == id && forall|q: int|
            0 <= q < p ==> ids@[q] != id,
        r is None ==> !ids@.contains(id),
{
    let n = ids.len();
    let mut i: usize = 0;
    while i < n
        invariant
            n == ids@.len(),
            i <= n,
            forall|q: int| 0 <= q < i ==> ids@[q] != id,
        decreases n - i,
    {
        if ids[i] == id {
            return Some(i);
        }
        i = i + 1;
    }
    None
}

/// A service is accepted exactly when the identifiers it exposes are the
/// declared ones: neither a superset nor a subset passes.
pub proof fn lemma_match_iff_same_members(declared: Seq<u128>, exposed: Seq<u128>)
    ensures
        attribute_match(declared, exposed) is Ok <==> same_members(declared, exposed),
{
    if attribute_match(declared, exposed) is Ok {
        assert forall|x: u128| declared.contains(x) <==> exposed.contains(x) by {
            if declared.contains(x) {
                let k = choose|k: int| 0 <= k < declared.len() && declared[k] == x;
                assert(exposed.contains(declared[k]));
            }
            if exposed.contains(x) {
                let j = choose|j: int| 0 <= j < exposed.len() && exposed[j] == x;
                assert(declared.contains(exposed[j]));
            }
        }
    }
    if same_members(declared, exposed) {
        assert(!(exists|j: int| 0 <= j < exposed.len() && !declared.contains(#[trigger] exposed[j]))) by {
            assert forall|j: int| 0 <= j < exposed.len() implies declared.contains(#[trigger] exposed[j]) by {
                assert(exposed.contains(exposed[j]));
            }
        }
        assert(!(exists|k: int| 0 <= k < declared.len() && !exposed.contains(#[trigger] declared[k]))) by {
            assert forall|k: int| 0 <= k < declared.len() implies exposed.contains(#[trigger] declared[k]) by {
                assert(declared.contains(declared[k]));
            }
        }
    }
}

} // verus!
