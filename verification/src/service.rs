//! The service that owns one script execution unit: the resource table
//! mapping monotonically assigned numeric ids to retained script callbacks,
//! and the decision logic of the uniform event-reporting protocol that
//! background tasks use to re-enter the interpreter.
use vstd::prelude::*;

verus! {

/// A handle to a value living inside the interpreter's heap. The verified
/// core keeps it as an opaque token; the host maps tokens to real engine
/// values and performs the reference counting. `dup` models acquiring one
/// more reference to the same underlying object.
pub struct ScriptValue {
    raw: u64,
}

impl View for ScriptValue {
    type V = u64;

    closed spec fn view(&self) -> u64 {
        self.raw
    }
}

impl ScriptValue {
    pub fn new(raw: u64) -> (v: ScriptValue)
        ensures
            v@ == raw,
    {
        ScriptValue { raw }
    }

    /// A fresh reference to the same underlying interpreter object.
    pub fn dup(&self) -> (v: ScriptValue)
        ensures
            v@ == self@,
    {
        ScriptValue { raw: self.raw }
    }

    pub fn raw(&self) -> (r: u64)
        ensures
            r == self@,
    {
        self.raw
    }
}

/// One entry of the resource table: the retained callback for one in-flight
/// asynchronous operation.
pub struct Resource {
    pub js_value: ScriptValue,
}

impl View for Resource {
    type V = u64;

    open spec fn view(&self) -> u64 {
        self.js_value@
    }
}

/// Owns the resource table of one script execution unit. Ids are assigned by
/// an in-process monotonic counter starting at 0 and are never reused while
/// the counter has capacity.
pub struct Service {
    next_resource_id: u64,
    resources: Vec<(u64, Resource)>,
}

impl Service {
    /// The table entries, in insertion order: (id, retained callback).
    pub closed spec fn entries(&self) -> Seq<(u64, u64)> {
        self.resources@.map_values(|e: (u64, Resource)| (e.0, e.1@))
    }

    pub closed spec fn next_id(&self) -> u64 {
        self.next_resource_id
    }

    /// Whether a live resource with this id is present.
    pub open spec fn has(&self, id: u64) -> bool {
        exists|i: int| 0 <= i < self.entries().len() && (#[trigger] self.entries()[i]).0 == id
    }

    /// The retained callback of a live resource.
    pub open spec fn callback_of(&self, id: u64) -> u64 {
        self.entries()[choose|i: int|
            0 <= i < self.entries().len() && (#[trigger] self.entries()[i]).0 == id].1
    }

    /// Ids are unique among live resources and below the counter.
    pub open spec fn wf(&self) -> bool {
        &&& forall|i: int, j: int|
            0 <= i < j < self.entries().len() ==> (#[trigger] self.entries()[i]).0 != (
            #[trigger] self.entries()[j]).0
        &&& forall|i: int|
            0 <= i < self.entries().len() ==> (#[trigger] self.entries()[i]).0
                < self.next_id()
    }

    /// The id the next spawn will hand out; ids above it are still free.
    pub fn peek_next_id(&self) -> (r: u64)
        ensures
            r == self.next_id(),
    {
        self.next_resource_id
    }

    pub fn new() -> (s: Service)
        ensures
            s.wf(),
            s.next_id() == 0,
            s.entries() == Seq::<(u64, u64)>::empty(),
    {
        Service { next_resource_id: 0, resources: Vec::new() }
    }

    /// Retains the callback of `resource`, allocates the next id, and
    /// inserts the entry into the table. Scheduling of the operation that
    /// will report through this id is the host's part.
    pub fn push_resource(&mut self, resource: Resource) -> (id: u64)
        requires
            old(self).wf(),
            old(self).next_id() < u64::MAX,
        ensures
            final(self).wf(),
            spawn_post(*old(self), *final(self), id, resource@),
    {
        let id = self.next_resource_id;
        self.next_resource_id = id + 1;
        self.resources.push((id, resource));
        proof {
            assert(self.entries() =~= old(self).entries().push((id, resource@)));
        }
        id
    }

    /// Registers `callback` as a new resource and hands out its id; the
    /// asynchronous operation itself is scheduled by the host with a weak
    /// reference to this service and the returned id.
    pub fn spawn(&mut self, callback: ScriptValue) -> (id: u64)
        requires
            old(self).wf(),
            old(self).next_id() < u64::MAX,
        ensures
            final(self).wf(),
            spawn_post(*old(self), *final(self), id, callback@),
    {
        self.push_resource(Resource { js_value: callback })
    }

    /// A fresh acquired reference to the stored callback, or `None` when the
    /// resource was already closed or never existed. Absence is a normal
    /// outcome; this never panics.
    pub fn get_resource_value(&self, id: u64) -> (r: Option<ScriptValue>)
        requires
            self.wf(),
        ensures
            r is Some <==> self.has(id),
            r matches Some(v) ==> v@ == self.callback_of(id),
    {
        let n = self.resources.len();
        let mut i: usize = 0;
        while i < n
            invariant
                self.wf(),
                n == self.resources.len(),
                i <= n,
                forall|j: int| 0 <= j < i ==> (#[trigger] self.entries()[j]).0 != id,
            decreases n - i,
        {
            if self.resources[i].0 == id {
                let v = self.resources[i].1.js_value.dup();
                proof {
                    assert(self.entries()[i as int].0 == id);
                    assert(forall|k: int|
                        0 <= k < self.entries().len() && (#[trigger] self.entries()[k]).0 == id
                            ==> k == i);
                }
                return Some(v);
            }
            i += 1;
        }
        None
    }

    /// Removes and returns the resource if present; used by the explicit
    /// `close` host call and internally on terminal events. Unknown ids are
    /// a no-op.
    pub fn remove_resource(&mut self, id: u64) -> (r: Option<Resource>)
        requires
            old(self).wf(),
        ensures
            final(self).wf(),
            remove_post(*old(self), *final(self), id, resource_view(r)),
    {
        let n = self.resources.len();
        let mut i: usize = 0;
        while i < n
            invariant
                *self == *old(self),
                self.wf(),
                n == self.resources.len(),
                i <= n,
                forall|j: int| 0 <= j < i ==> (#[trigger] self.entries()[j]).0 != id,
            decreases n - i,
        {
            if self.resources[i].0 == id {
                let (_, res) = self.resources.remove(i);
                proof {
                    assert(self.entries() =~= old(self).entries().remove(i as int));
                    assert(old(self).entries()[i as int].0 == id);
                    assert forall|k: int|
                        0 <= k < self.entries().len() implies (#[trigger] self.entries()[k]).0
                        != id by {
                        if k < i {
                            assert(self.entries()[k] == old(self).entries()[k]);
                        } else {
                            assert(self.entries()[k] == old(self).entries()[k + 1]);
                        }
                    }
                }
                return Some(res);
            }
            i += 1;
        }
        None
    }
}

/// What `spawn` (and `push_resource`) guarantees: the id handed out is the
/// counter's value, the counter advances by one, and the entry is appended.
pub open spec fn spawn_post(pre: Service, post: Service, id: u64, callback: u64) -> bool {
    &&& id == pre.next_id()
    &&& post.next_id() == pre.next_id() + 1
    &&& post.entries() == pre.entries().push((id, callback))
}

/// The view of an optionally returned resource: its retained callback.
pub open spec fn resource_view(r: Option<Resource>) -> Option<u64> {
    match r {
        Some(res) => Some(res@),
        None => None,
    }
}

/// What `remove_resource` guarantees: the entry (if any) leaves the table
/// and is handed back; afterwards the id is absent either way.
pub open spec fn remove_post(pre: Service, post: Service, id: u64, r: Option<u64>) -> bool {
    &&& post.next_id() == pre.next_id()
    &&& !post.has(id)
    &&& if pre.has(id) {
        exists|i: int|
            0 <= i < pre.entries().len() && (#[trigger] pre.entries()[i]).0 == id
                && post.entries() == pre.entries().remove(i) && r == Some(pre.entries()[i].1)
    } else {
        post.entries() == pre.entries() && r is None
    }
}

/// Removing one id leaves every other live resource in place, with its
/// callback unchanged.
pub proof fn lemma_remove_preserves_others(pre: Service, post: Service, id: u64, r: Option<u64>)
    requires
        pre.wf(),
        remove_post(pre, post, id, r),
    ensures
        forall|j: u64| j != id ==> (post.has(j) <==> pre.has(j)),
        forall|j: u64|
            j != id && pre.has(j) ==> #[trigger] post.callback_of(j) == pre.callback_of(j),
{
    if pre.has(id) {
        let i = choose|i: int|
            0 <= i < pre.entries().len() && (#[trigger] pre.entries()[i]).0 == id
                && post.entries() == pre.entries().remove(i) && r == Some(pre.entries()[i].1);
        assert forall|j: u64| j != id implies (post.has(j) <==> pre.has(j)) by {
            if pre.has(j) {
                let k = choose|k: int|
                    0 <= k < pre.entries().len() && (#[trigger] pre.entries()[k]).0 == j;
                if k < i {
                    assert(post.entries()[k] == pre.entries()[k]);
                } else {
                    assert(k != i);
                    assert(post.entries()[k - 1] == pre.entries()[k]);
                }
            }
            if post.has(j) {
                let k = choose|k: int|
                    0 <= k < post.entries().len() && (#[trigger] post.entries()[k]).0 == j;
                if k < i {
                    assert(pre.entries()[k] == post.entries()[k]);
                } else {
                    assert(pre.entries()[k + 1] == post.entries()[k]);
                }
            }
        }
        assert forall|j: u64| j != id && pre.has(j) implies #[trigger] post.callback_of(j)
            == pre.callback_of(j) by {
            let k = choose|k: int|
                0 <= k < pre.entries().len() && (#[trigger] pre.entries()[k]).0 == j;
            let k2 = choose|k2: int|
                0 <= k2 < post.entries().len() && (#[trigger] post.entries()[k2]).0 == j;
            if k2 < i {
                assert(post.entries()[k2] == pre.entries()[k2]);
                assert(pre.entries()[k2].0 == j && pre.entries()[k].0 == j);
                assert(k2 == k);
            } else {
                assert(post.entries()[k2] == pre.entries()[k2 + 1]);
                assert(pre.entries()[k2 + 1].0 == j && pre.entries()[k].0 == j);
                assert(k2 + 1 == k);
            }
        }
    }
}

/// Ids returned by two successive `spawn` calls on the same live service
/// are consecutive: the second is the first plus one.
pub proof fn law_spawn_ids_consecutive(
    s0: Service,
    s1: Service,
    s2: Service,
    c1: u64,
    c2: u64,
    i1: u64,
    i2: u64,
)
    requires
        spawn_post(s0, s1, i1, c1),
        spawn_post(s1, s2, i2, c2),
    ensures
        i2 == i1 + 1,
{
}

/// Closing a resource makes any later lookup of its id return absence, and
/// closing is idempotent: a second close (or closing an unknown id) changes
/// nothing and returns nothing.
pub proof fn law_close_idempotent(
    s0: Service,
    s1: Service,
    s2: Service,
    id: u64,
    r1: Option<u64>,
    r2: Option<u64>,
)
    requires
        s0.wf(),
        remove_post(s0, s1, id, r1),
        remove_post(s1, s2, id, r2),
    ensures
        !s1.has(id),
        s2.entries() == s1.entries(),
        r2 is None,
{
}

/// Ids are never reused: a spawn after a close still hands out an id that
/// differs from the closed one, because closing never rewinds the counter.
pub proof fn law_ids_not_reused(
    s0: Service,
    s1: Service,
    s2: Service,
    closed_id: u64,
    r: Option<u64>,
    new_id: u64,
    callback: u64,
)
    requires
        s0.wf(),
        s0.has(closed_id),
        remove_post(s0, s1, closed_id, r),
        spawn_post(s1, s2, new_id, callback),
    ensures
        new_id != closed_id,
{
}

/// Host call backing the script-visible `close`: removes the resource if it
/// is still live. Idempotent; closing an unknown id never fails.
pub fn close_res(service: &mut Service, res_id: u64)
    requires
        old(service).wf(),
    ensures
        final(service).wf(),
        !final(service).has(res_id),
        final(service).next_id() == old(service).next_id(),
        forall|j: u64| j != res_id ==> (final(service).has(j) <==> old(service).has(j)),
        forall|j: u64|
            j != res_id && old(service).has(j) ==> #[trigger] final(service).callback_of(j)
                == old(service).callback_of(j),
{
    let r = service.remove_resource(res_id);
    proof {
        lemma_remove_preserves_others(*old(service), *service, res_id, resource_view(r));
    }
}

/// How one synchronous interpreter re-entry resolves on the host side: a
/// call that completed is `Ok`, and a call that raised has its captured
/// exception text turned into the host error, exactly. The invocation
/// itself and the exception capture are the interpreter collaborator's
/// part; this is the decision the host applies to what came back.
pub fn call_outcome(exception: Option<String>) -> (r: Result<(), String>)
    ensures
        exception is None <==> r is Ok,
        exception matches Some(e) ==> (r matches Err(m) && m@ == "Failed to call function: "@
            + e@),
{
    match exception {
        None => Ok(()),
        Some(e) => {
            let mut m = String::from_str("Failed to call function: ");
            m.append(e.as_str());
            Err(m)
        },
    }
}

/// The first two steps of the uniform reporting protocol: how a background
/// task's attempt to report an event is resolved against the service's and
/// the resource's lifetime.
pub enum InvokeDecision {
    /// The weak service reference no longer upgrades: the script run has
    /// ended; the event is silently dropped.
    ServiceGone,
    /// The resource was explicitly closed or already finalized; the event is
    /// silently dropped.
    ResourceGone,
    /// The event is delivered by invoking this acquired callback.
    Deliver(ScriptValue),
}

/// Resolves one event-report attempt: no live service means no delivery, a
/// closed resource means no delivery, and otherwise the retained callback is
/// acquired for invocation. This never panics, whatever the lifetimes did.
pub fn plan_callback_invoke(service: Option<&Service>, id: u64) -> (d: InvokeDecision)
    requires
        service matches Some(s) ==> s.wf(),
    ensures
        service is None ==> d is ServiceGone,
        service matches Some(s) ==> (s.has(id) <==> d is Deliver),
        service matches Some(s) ==> (!s.has(id) ==> d is ResourceGone),
        service matches Some(s) ==> (s.has(id) ==> (d matches InvokeDecision::Deliver(v) && v@
            == s.callback_of(id))),
{
    match service {
        None => InvokeDecision::ServiceGone,
        Some(s) => match s.get_resource_value(id) {
            None => InvokeDecision::ResourceGone,
            Some(v) => InvokeDecision::Deliver(v),
        },
    }
}

} // verus!
