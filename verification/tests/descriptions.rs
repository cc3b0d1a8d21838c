//! Providers of static port descriptions.

use dataports::{PortDescription, PortDescriptionData, PortDescriptionProvider};

const INOUT: &str = "inout";
const OUT: &str = "out";

const DESC_INOUT: &str = "desc_inout";
const DESC_OUT: &str = "desc_out";

const COMMENT_INOUT: &str = "comment_inout";
const COMMENT_OUT: &str = "comment_out";

const DEFAULT_INOUT: &str = "default_inout";
const DEFAULT_OUT: &str = "default_out";

struct Plain {
    list: Vec<PortDescription>,
}

impl Plain {
    fn new() -> Self {
        Plain {
            list: vec![
                PortDescription::In(PortDescriptionData::new("in", None, None)),
                PortDescription::InOut(PortDescriptionData::new(INOUT, None, None)),
                PortDescription::Out(PortDescriptionData::new(OUT, None, None)),
            ],
        }
    }
}

impl PortDescriptionProvider for Plain {
    fn port_description_list(&self) -> &[PortDescription] {
        &self.list
    }
}

struct Described {
    list: Vec<PortDescription>,
}

impl Described {
    fn new() -> Self {
        Described {
            list: vec![
                PortDescription::In(PortDescriptionData::new("in", None, Some("desc_in"))),
                PortDescription::InOut(PortDescriptionData::new(INOUT, None, Some(DESC_INOUT))),
                PortDescription::Out(PortDescriptionData::new(OUT, None, Some(DESC_OUT))),
            ],
        }
    }
}

impl PortDescriptionProvider for Described {
    fn port_description_list(&self) -> &[PortDescription] {
        &self.list
    }
}

struct Commented {
    list: Vec<PortDescription>,
}

impl Commented {
    fn new() -> Self {
        Commented {
            list: vec![
                PortDescription::In(PortDescriptionData::new("in", Some("24"), Some("comment_in"))),
                PortDescription::InOut(
                    PortDescriptionData::new(INOUT, Some("42"), Some(COMMENT_INOUT)),
                ),
                PortDescription::Out(
                    PortDescriptionData::new(OUT, Some("-42"), Some(COMMENT_OUT)),
                ),
            ],
        }
    }
}

impl PortDescriptionProvider for Commented {
    fn port_description_list(&self) -> &[PortDescription] {
        &self.list
    }
}

struct WithDefaults {
    list: Vec<PortDescription>,
}

impl WithDefaults {
    fn new() -> Self {
        WithDefaults {
            list: vec![
                PortDescription::In(
                    PortDescriptionData::new("in", Some("default_in"), Some("comment_in")),
                ),
                PortDescription::InOut(
                    PortDescriptionData::new(INOUT, Some(DEFAULT_INOUT), Some(COMMENT_INOUT)),
                ),
                PortDescription::Out(
                    PortDescriptionData::new(OUT, Some(DEFAULT_OUT), Some(COMMENT_OUT)),
                ),
            ],
        }
    }
}

impl PortDescriptionProvider for WithDefaults {
    fn port_description_list(&self) -> &[PortDescription] {
        &self.list
    }
}

struct Empty {
    list: Vec<PortDescription>,
}

impl Empty {
    fn new() -> Self {
        Empty { list: Vec::new() }
    }
}

impl PortDescriptionProvider for Empty {
    fn port_description_list(&self) -> &[PortDescription] {
        &self.list
    }
}

fn assert_three_ports(provider: &impl PortDescriptionProvider) {
    assert!(provider.has_port("in"));
    assert!(provider.has_port("inout"));
    assert!(provider.has_port(INOUT));
    assert!(provider.has_port("out"));
    assert!(provider.has_port(OUT));
}

#[test]
fn description_manual_implementation() {
    let static_provider = Plain::new();
    assert_three_ports(&static_provider);
}

#[test]
fn description_mixed_implementation() {
    let static_provider = Described::new();
    assert!(static_provider.has_port("in"));
    assert_eq!(
        static_provider.port_description("in").unwrap().comment().unwrap(),
        "desc_in"
    );
    assert!(static_provider.has_port("inout"));
    assert!(static_provider.has_port(INOUT));
    assert_eq!(
        static_provider.port_description("inout").unwrap().comment().unwrap(),
        "desc_inout"
    );
    assert_eq!(
        static_provider.port_description(INOUT).unwrap().comment().unwrap(),
        DESC_INOUT
    );
    assert!(static_provider.has_port("out"));
    assert!(static_provider.has_port(OUT));
    assert_eq!(
        static_provider.port_description("out").unwrap().comment().unwrap(),
        "desc_out"
    );
    assert_eq!(
        static_provider.port_description(OUT).unwrap().comment().unwrap(),
        DESC_OUT
    );
}

#[test]
fn description_macro_implementation() {
    let static_provider = Plain::new();
    assert_three_ports(&static_provider);
}

#[test]
fn no_implementation() {
    let static_provider = Empty::new();
    assert!(!static_provider.has_port("in"));
    assert!(static_provider.port_description_list().is_empty());
    assert!(static_provider.port_description("in").is_none());
}

#[test]
fn description1_macro_implementation() {
    let static_provider = Commented::new();
    assert!(static_provider.has_port("in"));
    assert_eq!(
        static_provider.port_description("in").unwrap().comment().unwrap(),
        "comment_in"
    );
    assert!(static_provider.has_port("inout"));
    assert!(static_provider.has_port(INOUT));
    assert_eq!(
        static_provider.port_description("inout").unwrap().comment().unwrap(),
        "comment_inout"
    );
    assert_eq!(
        static_provider.port_description(INOUT).unwrap().comment().unwrap(),
        COMMENT_INOUT
    );
    assert!(static_provider.has_port("out"));
    assert!(static_provider.has_port(OUT));
    assert_eq!(
        static_provider.port_description("out").unwrap().comment().unwrap(),
        "comment_out"
    );
    assert_eq!(
        static_provider.port_description(OUT).unwrap().comment().unwrap(),
        COMMENT_OUT
    );
}

#[test]
fn description2_manual_implementation() {
    let static_provider = Plain::new();
    assert_three_ports(&static_provider);
}

#[test]
fn description2_mixed_implementation() {
    let static_provider = WithDefaults::new();
    assert!(static_provider.has_port("in"));
    assert_eq!(
        static_provider.port_description("in").unwrap().comment().unwrap(),
        "comment_in"
    );
    assert!(static_provider.has_port("inout"));
    assert!(static_provider.has_port(INOUT));
    assert_eq!(
        static_provider.port_description("inout").unwrap().comment().unwrap(),
        "comment_inout"
    );
    assert_eq!(
        static_provider.port_description(INOUT).unwrap().comment().unwrap(),
        COMMENT_INOUT
    );
    assert!(static_provider.has_port("out"));
    assert!(static_provider.has_port(OUT));
    assert_eq!(
        static_provider.port_description("out").unwrap().comment().unwrap(),
        "comment_out"
    );
    assert_eq!(
        static_provider.port_description(OUT).unwrap().comment().unwrap(),
        COMMENT_OUT
    );
}

#[test]
fn description2_macro_implementation() {
    let static_provider = Plain::new();
    assert_three_ports(&static_provider);
}

#[test]
fn no_ports_manual() {
    let static_provider = Empty::new();
    assert!(!static_provider.has_port("in"));
    assert!(static_provider.port_description_list().is_empty());
    assert!(static_provider.port_description("in").is_none());
}

#[test]
fn no_ports_macro() {
    let static_provider = Empty::new();
    assert!(!static_provider.has_port("in"));
    assert!(static_provider.port_description_list().is_empty());
    assert!(static_provider.port_description("in").is_none());
}

#[test]
fn ports_without_manual() {
    let static_provider = Plain::new();
    assert!(static_provider.has_port("in"));
    assert!(static_provider.port_description("in").unwrap().default().is_none());
    assert!(static_provider.has_port("inout"));
    assert!(static_provider.port_description("inout").unwrap().default().is_none());
    assert!(static_provider.has_port(INOUT));
    assert!(static_provider.has_port("out"));
    assert!(static_provider.port_description("out").unwrap().default().is_none());
    assert!(static_provider.has_port(OUT));
}

#[test]
fn ports_without_macro() {
    let static_provider = Plain::new();
    assert!(static_provider.has_port("in"));
    assert!(static_provider.port_description("in").unwrap().default().is_none());
    assert!(static_provider.port_description("in").unwrap().comment().is_none());
    assert!(static_provider.has_port("inout"));
    assert!(static_provider.port_description("inout").unwrap().default().is_none());
    assert!(static_provider.port_description("inout").unwrap().comment().is_none());
    assert!(static_provider.has_port(INOUT));
    assert!(static_provider.has_port("out"));
    assert!(static_provider.port_description("out").unwrap().default().is_none());
    assert!(static_provider.port_description("out").unwrap().comment().is_none());
    assert!(static_provider.has_port(OUT));
}
