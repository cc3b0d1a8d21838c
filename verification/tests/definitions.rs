//! Port providers with statically declared port lists.

use dataports::{Port, PortProvider};

const INOUT: &str = "inout";
const OUT: &str = "out";

struct ManualImplementation {
    list: Vec<Port>,
}

impl ManualImplementation {
    fn new() -> Self {
        ManualImplementation {
            list: vec![
                Port::In { name: "in" },
                Port::InOut { name: INOUT },
                Port::Out { name: OUT },
            ],
        }
    }
}

impl PortProvider for ManualImplementation {
    fn portlist(&self) -> &[Port] {
        &self.list
    }
}

#[test]
fn definition_manual_implementation() {
    let static_provider = ManualImplementation::new();
    assert!(static_provider.has_port("in"));
    assert!(static_provider.has_port("inout"));
    assert!(static_provider.has_port(INOUT));
    assert!(static_provider.has_port("out"));
    assert!(static_provider.has_port(OUT));
}

struct MixedImplementation {
    list: Vec<Port>,
}

impl MixedImplementation {
    fn new() -> Self {
        MixedImplementation {
            list: vec![
                Port::In { name: "in" },
                Port::InOut { name: INOUT },
                Port::Out { name: OUT },
            ],
        }
    }
}

impl PortProvider for MixedImplementation {
    fn portlist(&self) -> &[Port] {
        &self.list
    }
}

#[test]
fn definition_mixed_implementation() {
    let static_provider = MixedImplementation::new();
    assert!(static_provider.has_port("in"));
    assert!(static_provider.has_port("inout"));
    assert!(static_provider.has_port(INOUT));
    assert!(static_provider.has_port("out"));
    assert!(static_provider.has_port(OUT));
}

struct MacroImplementation {
    list: Vec<Port>,
}

impl MacroImplementation {
    fn new() -> Self {
        MacroImplementation {
            list: vec![
                Port::In { name: "in" },
                Port::InOut { name: INOUT },
                Port::Out { name: OUT },
            ],
        }
    }
}

impl PortProvider for MacroImplementation {
    fn portlist(&self) -> &[Port] {
        &self.list
    }
}

#[test]
fn definition_macro_implementation() {
    let static_provider = MacroImplementation::new();
    assert!(static_provider.has_port("in"));
    assert!(static_provider.has_port("inout"));
    assert!(static_provider.has_port(INOUT));
    assert!(static_provider.has_port("out"));
    assert!(static_provider.has_port(OUT));
}

struct SecondMacroImplementation {
    list: Vec<Port>,
}

impl SecondMacroImplementation {
    fn new() -> Self {
        SecondMacroImplementation {
            list: vec![
                Port::In { name: "in" },
                Port::InOut { name: INOUT },
                Port::Out { name: OUT },
            ],
        }
    }
}

impl PortProvider for SecondMacroImplementation {
    fn portlist(&self) -> &[Port] {
        &self.list
    }
}

#[test]
fn definition2_macro_implementation() {
    let static_provider = SecondMacroImplementation::new();
    assert!(static_provider.has_port("in"));
    assert!(static_provider.has_port("inout"));
    assert!(static_provider.has_port(INOUT));
    assert!(static_provider.has_port("out"));
    assert!(static_provider.has_port(OUT));
}
