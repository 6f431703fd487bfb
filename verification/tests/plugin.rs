use printer_plugin::{descriptor_for, init_native, init_stub, plugin_name_str, PluginHandle};

#[test]
fn plugin_name_is_fixed() {
    assert_eq!(plugin_name_str(), "printer");
}

#[test]
fn stub_init_always_succeeds_unbound() {
    let h = init_stub();
    assert_eq!(h.name, "printer");
    assert!(h.native.is_none());
}

#[test]
fn native_init_accepted_yields_bound_handle() {
    let r: Result<PluginHandle, String> = init_native(Ok(()));
    match r {
        Ok(h) => {
            assert_eq!(h.name, "printer");
            match h.native {
                Some(b) => {
                    assert_eq!(b.package, "com.myongyop.kikit");
                    assert_eq!(b.class, "PrinterPlugin");
                }
                None => panic!("a native handle must carry the fixed binding"),
            }
        }
        Err(_) => panic!("an accepted registration must initialize"),
    }
}

#[test]
fn native_init_rejected_propagates_error_unchanged() {
    let r: Result<PluginHandle, String> = init_native(Err(String::from("host refused the class")));
    match r {
        Ok(_) => panic!("a rejected registration must not initialize"),
        Err(e) => assert_eq!(e, "host refused the class"),
    }
}

#[test]
fn descriptor_declares_binding_only_on_native_target() {
    let native = descriptor_for(true);
    assert_eq!(native.name, "printer");
    match native.binding {
        Some(b) => {
            assert_eq!(b.package, "com.myongyop.kikit");
            assert_eq!(b.class, "PrinterPlugin");
        }
        None => panic!("the native target must declare the binding"),
    }

    let stub = descriptor_for(false);
    assert_eq!(stub.name, "printer");
    assert!(stub.binding.is_none());
}
