//! Platform-selection logic for a printer capability plugin.
//!
//! A host application shell loads a plugin named `printer`. On the one
//! native-capable target the plugin delegates to an external native class,
//! identified by a fixed package path and class name, and initialization
//! fails exactly when the host rejects that registration; on every other
//! target the plugin is an inert stub and initialization always succeeds.
//! This crate holds the decision logic: which registration the host is
//! asked for, and which handle (or error) each host answer yields. The
//! unverified shell glue performs the actual host calls.

use vstd::prelude::*;

verus! {

/// The fixed name under which the capability is registered with the host.
pub open spec fn plugin_name() -> Seq<char> {
    "printer"@
}

/// Package path of the external native class that implements the capability
/// on the native-capable target.
pub open spec fn native_package() -> Seq<char> {
    "com.myongyop.kikit"@
}

/// Class name of the external native class.
pub open spec fn native_class() -> Seq<char> {
    "PrinterPlugin"@
}

/// Identifies the external native class the host is asked to delegate to.
pub struct NativeBinding {
    pub package: String,
    pub class: String,
}

impl View for NativeBinding {
    type V = (Seq<char>, Seq<char>);

    open spec fn view(&self) -> Self::V {
        (self.package@, self.class@)
    }
}

/// What the host shell is asked to register: the plugin's name and, on the
/// native-capable target only, the native class to delegate to.
pub struct PluginDescriptor {
    pub name: String,
    pub binding: Option<NativeBinding>,
}

impl View for PluginDescriptor {
    type V = (Seq<char>, Option<(Seq<char>, Seq<char>)>);

    open spec fn view(&self) -> Self::V {
        (
            self.name@,
            match self.binding {
                Some(b) => Some(b@),
                None => None,
            },
        )
    }
}

/// What the host is asked to register for a target: the fixed native binding
/// on the native-capable target, no binding anywhere else.
pub open spec fn descriptor_view(native_capable: bool) -> (Seq<char>, Option<
    (Seq<char>, Seq<char>),
>) {
    if native_capable {
        (plugin_name(), Some((native_package(), native_class())))
    } else {
        (plugin_name(), None)
    }
}

/// The handle the host shell keeps once initialization has finished. It
/// records which native binding, if any, was registered; the stub handle
/// carries none and is inert.
pub struct PluginHandle {
    pub name: String,
    pub native: Option<NativeBinding>,
}

impl View for PluginHandle {
    type V = (Seq<char>, Option<(Seq<char>, Seq<char>)>);

    open spec fn view(&self) -> Self::V {
        (
            self.name@,
            match self.native {
                Some(b) => Some(b@),
                None => None,
            },
        )
    }
}

/// The plugin name as the host's registration call takes it.
pub fn plugin_name_str() -> (s: &'static str)
    ensures
        s@ == plugin_name(),
{
    "printer"
}

fn native_binding() -> (b: NativeBinding)
    ensures
        b@ == (native_package(), native_class()),
{
    NativeBinding { package: "com.myongyop.kikit".to_owned(), class: "PrinterPlugin".to_owned() }
}

/// Selects the registration strategy for the deployment target: the one
/// native-capable target declares the fixed native class, every other
/// target asks for nothing beyond the name.
pub fn descriptor_for(native_capable: bool) -> (d: PluginDescriptor)
    ensures
        d@ == descriptor_view(native_capable),
{
    let binding = if native_capable {
        Some(native_binding())
    } else {
        None
    };
    PluginDescriptor { name: "printer".to_owned(), binding }
}

/// Initialization on a target with no native capability: it performs no
/// side effect, cannot fail, and yields a handle with no registered
/// native binding.
pub fn init_stub() -> (h: PluginHandle)
    ensures
        h@ == descriptor_view(false),
{
    PluginHandle { name: "printer".to_owned(), native: None }
}

/// Initialization on the native-capable target, given the host's answer to
/// the registration request: an accepted registration yields the handle
/// bound to the fixed package and class, a rejected one fails with the
/// host's error unchanged, and no other outcome is possible.
pub fn init_native<E>(registration: Result<(), E>) -> (r: Result<PluginHandle, E>)
    ensures
        r is Ok <==> registration is Ok,
        r is Ok ==> (r->Ok_0)@ == descriptor_view(true),
        r is Err ==> r->Err_0 == registration->Err_0,
{
    match registration {
        Ok(()) => Ok(PluginHandle { name: "printer".to_owned(), native: Some(native_binding()) }),
        Err(e) => Err(e),
    }
}

} // verus!
