use viewarr::colormap::Colormap;

#[test]
fn from_name_accepts_canonical_names() {
    assert_eq!(Colormap::from_name("gray"), Some(Colormap::Grayscale));
    assert_eq!(Colormap::from_name("inferno"), Some(Colormap::Inferno));
    assert_eq!(Colormap::from_name("magma"), Some(Colormap::Magma));
    assert_eq!(Colormap::from_name("rdbu"), Some(Colormap::RdBu));
    assert_eq!(Colormap::from_name("rdylbu"), Some(Colormap::RdYlBu));
}

#[test]
fn from_name_accepts_aliases_case_and_whitespace() {
    assert_eq!(Colormap::from_name("grayscale"), Some(Colormap::Grayscale));
    assert_eq!(Colormap::from_name("greyscale"), Some(Colormap::Grayscale));
    assert_eq!(Colormap::from_name("Gray"), Some(Colormap::Grayscale));
    assert_eq!(Colormap::from_name("  RdBu\n"), Some(Colormap::RdBu));
    assert_eq!(Colormap::from_name("\tINFERNO "), Some(Colormap::Inferno));
    assert_eq!(Colormap::from_name("\u{3000}Magma\u{a0}"), Some(Colormap::Magma));
    assert_eq!(Colormap::from_name("RdYlBu"), Some(Colormap::RdYlBu));
}

#[test]
fn from_name_rejects_unknown_names() {
    assert_eq!(Colormap::from_name(""), None);
    assert_eq!(Colormap::from_name("   "), None);
    assert_eq!(Colormap::from_name("viridis"), None);
    assert_eq!(Colormap::from_name("gr ay"), None);
    assert_eq!(Colormap::from_name("grey"), None);
    assert_eq!(Colormap::from_name("rd_bu"), None);
}

#[test]
fn names_are_the_display_names() {
    assert_eq!(Colormap::Grayscale.name(), "gray");
    assert_eq!(Colormap::Inferno.name(), "inferno");
    assert_eq!(Colormap::Magma.name(), "magma");
    assert_eq!(Colormap::RdBu.name(), "RdBu");
    assert_eq!(Colormap::RdYlBu.name(), "RdYlBu");
}

#[test]
fn name_parses_back_to_the_same_colormap() {
    for c in [
        Colormap::Grayscale,
        Colormap::Inferno,
        Colormap::Magma,
        Colormap::RdBu,
        Colormap::RdYlBu,
    ] {
        assert_eq!(Colormap::from_name(c.name()), Some(c));
    }
}

#[test]
fn diverging_and_standard_lists_partition_the_colormaps() {
    assert_eq!(
        Colormap::standard_colormaps(),
        &[Colormap::Grayscale, Colormap::Inferno, Colormap::Magma]
    );
    assert_eq!(Colormap::diverging_colormaps(), &[Colormap::RdBu, Colormap::RdYlBu]);
    for c in Colormap::standard_colormaps() {
        assert!(!c.is_diverging());
    }
    for c in Colormap::diverging_colormaps() {
        assert!(c.is_diverging());
    }
}

#[test]
fn default_colormap_is_gray() {
    assert_eq!(Colormap::default(), Colormap::Grayscale);
}
