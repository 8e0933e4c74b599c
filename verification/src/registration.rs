//! Driver registration lifecycle: `Unregistered → Registered →
//! Unregistered`, terminal via teardown, with no other states.
//!
//! A registration owns a foreign-compatible descriptor, default-initialized
//! at construction so teardown always has a valid value to operate on. It
//! submits the descriptor to the host exactly once — a second attempt is a
//! caller's logic error, refused before the host is ever asked — and on
//! teardown asks the host to unregister exactly when registration had
//! succeeded.

use crate::descriptor::empty_descriptor;
use crate::descriptor::SpiDriver;
use crate::descriptor::SpiMethod;
use crate::descriptor::SpiMethodVoid;
use crate::error::RegistrationError;
use crate::host::register_recorded;
use crate::host::unregister_recorded;
use crate::host::Host;
use crate::host::ThisModule;
use crate::ids::DriverName;
use crate::ids::IdTable;
use crate::ids::SpiDeviceId;
use vstd::prelude::*;

verus! {

/// A driver's registration with the host subsystem.
pub struct DriverRegistration {
    this_module: ThisModule,
    registered: bool,
    name: DriverName,
    id_table: IdTable,
    probe: Option<SpiMethod>,
    remove: Option<SpiMethod>,
    shutdown: Option<SpiMethodVoid>,
    spi_driver: SpiDriver,
}

impl DriverRegistration {
    /// Whether the instance is in the `Registered` state.
    pub closed spec fn is_registered(&self) -> bool {
        self.registered
    }

    /// The module identity presented to the host.
    pub closed spec fn spec_module(&self) -> ThisModule {
        self.this_module
    }

    /// The accepted driver name.
    pub closed spec fn spec_name(&self) -> Seq<u8> {
        self.name@
    }

    /// The identifier-table entries the host may read.
    pub closed spec fn spec_ids(&self) -> Seq<SpiDeviceId> {
        self.id_table@
    }

    /// The configured probe slot.
    pub closed spec fn spec_probe(&self) -> Option<SpiMethod> {
        self.probe
    }

    /// The configured remove slot.
    pub closed spec fn spec_remove(&self) -> Option<SpiMethod> {
        self.remove
    }

    /// The configured shutdown slot.
    pub closed spec fn spec_shutdown(&self) -> Option<SpiMethodVoid> {
        self.shutdown
    }

    /// The owned descriptor as it currently stands.
    pub closed spec fn spec_descriptor(&self) -> SpiDriver {
        self.spi_driver
    }
}

/// The descriptor of `reg` is populated from its configuration: name
/// copied in, identifier-table extent set, each callback slot exactly as
/// declared — an undeclared slot stays the null pointer.
pub open spec fn descriptor_populated(reg: DriverRegistration) -> bool {
    &&& reg.spec_descriptor().name@ == reg.spec_name()
    &&& reg.spec_descriptor().id_count == reg.spec_ids().len()
    &&& reg.spec_descriptor().probe == reg.spec_probe()
    &&& reg.spec_descriptor().remove == reg.spec_remove()
    &&& reg.spec_descriptor().shutdown == reg.spec_shutdown()
}

/// The configuration of `post` is the one of `pre`.
pub open spec fn same_configuration(pre: DriverRegistration, post: DriverRegistration) -> bool {
    &&& post.spec_module() == pre.spec_module()
    &&& post.spec_name() == pre.spec_name()
    &&& post.spec_ids() == pre.spec_ids()
    &&& post.spec_probe() == pre.spec_probe()
    &&& post.spec_remove() == pre.spec_remove()
    &&& post.spec_shutdown() == pre.spec_shutdown()
}

/// Everything one call of `register` does, for every starting state.
///
/// On an already registered instance it fails with `AlreadyRegistered`
/// and touches neither the instance nor the host. Otherwise it populates
/// the descriptor, submits it to the host exactly once, and transitions
/// to `Registered` exactly when the host answers 0; any other answer is
/// surfaced as `HostRejected` with the host's code, and the state stays
/// `Unregistered`.
pub open spec fn register_spec(
    pre: DriverRegistration,
    post: DriverRegistration,
    h0: Host,
    h1: Host,
    r: Result<(), RegistrationError>,
) -> bool {
    if pre.is_registered() {
        &&& r == Err::<(), _>(RegistrationError::AlreadyRegistered)
        &&& post == pre
        &&& h1 == h0
    } else {
        &&& register_recorded(
            h0,
            h1,
            pre.spec_module().0,
            pre.spec_name(),
            pre.spec_ids().len(),
            pre.spec_probe() is Some,
            pre.spec_remove() is Some,
            pre.spec_shutdown() is Some,
        )
        &&& same_configuration(pre, post)
        &&& descriptor_populated(post)
        &&& if h0.register_status == 0 {
            r is Ok && post.is_registered()
        } else {
            &&& r == Err::<(), _>(RegistrationError::HostRejected { code: h0.register_status })
            &&& !post.is_registered()
        }
    }
}

/// Everything one call of `teardown` does: a registered instance asks the
/// host to unregister its descriptor exactly once, an unregistered one
/// leaves the host untouched.
pub open spec fn teardown_spec(reg: DriverRegistration, h0: Host, h1: Host) -> bool {
    if reg.is_registered() {
        unregister_recorded(h0, h1, reg.spec_descriptor().name@)
    } else {
        h1 == h0
    }
}

impl DriverRegistration {
    /// Builds an unregistered instance: pure allocation, no host
    /// interaction. The descriptor starts in its empty default form.
    pub fn new(
        this_module: ThisModule,
        name: DriverName,
        id_table: IdTable,
        probe: Option<SpiMethod>,
        remove: Option<SpiMethod>,
        shutdown: Option<SpiMethodVoid>,
    ) -> (r: DriverRegistration)
        ensures
            !r.is_registered(),
            r.spec_module() == this_module,
            r.spec_name() == name@,
            r.spec_ids() == id_table@,
            r.spec_probe() == probe,
            r.spec_remove() == remove,
            r.spec_shutdown() == shutdown,
            empty_descriptor(r.spec_descriptor()),
    {
        DriverRegistration {
            this_module,
            registered: false,
            name,
            id_table,
            probe,
            remove,
            shutdown,
            spi_driver: SpiDriver::default(),
        }
    }

    /// Builds an instance in heap storage and registers it in place.
    ///
    /// Keeping a registered instance at a fixed address is a convention
    /// the caller must uphold, not something the types enforce: in the
    /// pattern this models, the host holds the descriptor's address
    /// from registration to unregistration. The host modeled here keeps
    /// records rather than addresses, so that obligation stays outside
    /// the model.
    pub fn new_pinned(
        this_module: ThisModule,
        name: DriverName,
        id_table: IdTable,
        probe: Option<SpiMethod>,
        remove: Option<SpiMethod>,
        shutdown: Option<SpiMethodVoid>,
        host: &mut Host,
    ) -> (r: Result<Box<DriverRegistration>, RegistrationError>)
        requires
            old(host).register_calls < u64::MAX,
        ensures
            register_recorded(
                *old(host),
                *final(host),
                this_module.0,
                name@,
                id_table@.len(),
                probe is Some,
                remove is Some,
                shutdown is Some,
            ),
            r is Ok <==> old(host).register_status == 0,
            r matches Ok(b) ==> {
                &&& (*b).is_registered()
                &&& (*b).spec_module() == this_module
                &&& (*b).spec_name() == name@
                &&& (*b).spec_ids() == id_table@
                &&& (*b).spec_probe() == probe
                &&& (*b).spec_remove() == remove
                &&& (*b).spec_shutdown() == shutdown
                &&& descriptor_populated(*b)
            },
            r matches Err(e) ==> e == (RegistrationError::HostRejected {
                code: old(host).register_status,
            }),
    {
        let mut registration = Box::new(
            Self::new(this_module, name, id_table, probe, remove, shutdown),
        );
        match registration.register(host) {
            Ok(()) => Ok(registration),
            Err(e) => Err(e),
        }
    }

    /// Submits the descriptor to the host, exactly once per instance.
    ///
    /// `register_spec` states everything this does; in short, it returns
    /// `Ok` exactly when the instance was unregistered and the host
    /// answered 0, and the host is asked at most once.
    ///
    /// In the pattern this models, the host keeps a live reference into
    /// the instance's descriptor from a successful registration until
    /// unregistration, so by convention the instance then stays where
    /// it stands until `teardown`; the types do not enforce that, and
    /// the host modeled here keeps records rather than addresses.
    pub fn register(&mut self, host: &mut Host) -> (r: Result<(), RegistrationError>)
        requires
            !old(self).is_registered() ==> old(host).register_calls < u64::MAX,
        ensures
            register_spec(*old(self), *final(self), *old(host), *final(host), r),
    {
        if self.registered {
            return Err(RegistrationError::AlreadyRegistered);
        }
        self.spi_driver.name = self.name.to_vec();
        self.spi_driver.id_count = self.id_table.len();
        self.spi_driver.probe = self.probe;
        self.spi_driver.remove = self.remove;
        self.spi_driver.shutdown = self.shutdown;
        let status = host.register_driver(self.this_module, &self.spi_driver);
        if status == 0 {
            self.registered = true;
            Ok(())
        } else {
            Err(RegistrationError::HostRejected { code: status })
        }
    }

    /// Tears the instance down, consuming it. A registered instance asks
    /// the host to unregister its descriptor, unconditionally and exactly
    /// once; an unregistered one never does. The descriptor is a
    /// mandatory field initialized at construction, so this step can
    /// never find it absent.
    pub fn teardown(self, host: &mut Host)
        requires
            self.is_registered() ==> old(host).unregister_calls < u64::MAX,
        ensures
            teardown_spec(self, *old(host), *final(host)),
    {
        if self.registered {
            host.unregister_driver(&self.spi_driver);
        }
    }

    /// Whether the instance is currently registered.
    pub fn registered(&self) -> (r: bool)
        ensures
            r == self.is_registered(),
    {
        self.registered
    }
}

/// Law: a first registration succeeds exactly when the host's
/// registration stub answers 0; it asks the host exactly once, and only
/// success transitions the instance to `Registered`.
pub proof fn lemma_register_once(
    pre: DriverRegistration,
    post: DriverRegistration,
    h0: Host,
    h1: Host,
    r: Result<(), RegistrationError>,
)
    requires
        !pre.is_registered(),
        register_spec(pre, post, h0, h1, r),
    ensures
        r is Ok <==> h0.register_status == 0,
        h1.register_calls == h0.register_calls + 1,
        post.is_registered() <==> r is Ok,
        r matches Err(e) ==> e == (RegistrationError::HostRejected { code: h0.register_status }),
{
}

/// Law: registering an already registered instance always fails with
/// `AlreadyRegistered` and changes nothing — not the instance, and not
/// the host, which is not even asked.
pub proof fn lemma_register_twice(
    first: DriverRegistration,
    second: DriverRegistration,
    third: DriverRegistration,
    h0: Host,
    h1: Host,
    h2: Host,
    r1: Result<(), RegistrationError>,
    r2: Result<(), RegistrationError>,
)
    requires
        !first.is_registered(),
        h0.register_status == 0,
        register_spec(first, second, h0, h1, r1),
        register_spec(second, third, h1, h2, r2),
    ensures
        r1 is Ok,
        r2 == Err::<(), _>(RegistrationError::AlreadyRegistered),
        third == second,
        h2 == h1,
{
}

/// Law: tearing down a registered instance invokes the host's
/// unregistration stub exactly once; tearing down an unregistered
/// instance never invokes it.
pub proof fn lemma_teardown_count(reg: DriverRegistration, h0: Host, h1: Host)
    requires
        teardown_spec(reg, h0, h1),
    ensures
        reg.is_registered() ==> h1.unregister_calls == h0.unregister_calls + 1,
        !reg.is_registered() ==> h1.unregister_calls == h0.unregister_calls,
{
}

/// Law: over a full lifecycle — an unregistered instance registers
/// against an accepting host and is then torn down — the host sees
/// exactly one registration call and exactly one unregistration call,
/// and the unregistered descriptor carries the registered name.
pub proof fn lemma_lifecycle_balanced(
    pre: DriverRegistration,
    post: DriverRegistration,
    h0: Host,
    h1: Host,
    h2: Host,
    r: Result<(), RegistrationError>,
)
    requires
        !pre.is_registered(),
        h0.register_status == 0,
        register_spec(pre, post, h0, h1, r),
        teardown_spec(post, h1, h2),
    ensures
        h2.register_calls == h0.register_calls + 1,
        h2.unregister_calls == h0.unregister_calls + 1,
        h2.last_unreg_name@ == pre.spec_name(),
{
}

/// Law: callback slots mirror the declared capability set — after a
/// successful registration each descriptor slot, and the host's record of
/// it, is set exactly when the corresponding handler operation was
/// declared; in particular a handler declaring only probe leaves the
/// remove and shutdown pointers null.
pub proof fn lemma_capability_slots(
    pre: DriverRegistration,
    post: DriverRegistration,
    h0: Host,
    h1: Host,
    r: Result<(), RegistrationError>,
)
    requires
        !pre.is_registered(),
        register_spec(pre, post, h0, h1, r),
    ensures
        post.spec_descriptor().probe == pre.spec_probe(),
        post.spec_descriptor().remove == pre.spec_remove(),
        post.spec_descriptor().shutdown == pre.spec_shutdown(),
        h1.last_reg_probe_set <==> pre.spec_probe() is Some,
        h1.last_reg_remove_set <==> pre.spec_remove() is Some,
        h1.last_reg_shutdown_set <==> pre.spec_shutdown() is Some,
{
}

} // verus!
