use pslib::{ImageFit, ImageRegistry, InlineImage, Procedure, ProcedureRegistry, Scalar};

fn procedure(name: &str, body: &str) -> Procedure {
    Procedure { name: name.to_string(), body: body.to_string() }
}

#[test]
fn empty_registry_finds_nothing() {
    let registry = ProcedureRegistry::new();
    assert!(registry.get_procedure("rect").is_none());
    assert!(registry.list_procedures().is_empty());
}

#[test]
fn builtins_are_the_six_procedures() {
    let registry = ProcedureRegistry::with_builtins();
    let listed: Vec<(&str, &str)> = registry
        .list_procedures()
        .into_iter()
        .map(|p| (p.name.as_str(), p.body.as_str()))
        .collect();
    assert_eq!(
        listed,
        vec![
            ("rect", "/rect { newpath moveto rlineto rlineto rlineto rlineto closepath } def"),
            ("line", "/line { newpath moveto rlineto closepath } def"),
            ("fill_rgb", "/fillrgb { gsave setrgbcolor fill grestore } def"),
            ("fill_cmyk", "/fillcmyk { gsave setcmykcolor fill grestore } def"),
            ("stroke_rgb", "/strokergb { gsave setlinewidth setrgbcolor stroke grestore } def"),
            ("stroke_cmyk", "/strokecmyk { gsave setlinewidth setcmykcolor stroke grestore } def"),
        ]
    );
    assert_eq!(
        registry.get_procedure("fill_cmyk").map(|p| p.body.as_str()),
        Some("/fillcmyk { gsave setcmykcolor fill grestore } def")
    );
}

#[test]
fn lookup_is_by_exact_name() {
    let registry = ProcedureRegistry::with_builtins();
    assert!(registry.get_procedure("rect").is_some());
    assert!(registry.get_procedure("Rect").is_none());
    assert!(registry.get_procedure("rect ").is_none());
    assert!(registry.get_procedure("rec").is_none());
    assert!(registry.get_procedure("").is_none());
}

#[test]
fn last_registration_of_a_name_wins() {
    let mut registry = ProcedureRegistry::with_builtins();
    registry.add_procedure(procedure("line", "/line { } def"));
    assert_eq!(registry.get_procedure("line").map(|p| p.body.as_str()), Some("/line { } def"));
    let names: Vec<&str> = registry.list_procedures().iter().map(|p| p.name.as_str()).collect();
    assert_eq!(names, vec!["rect", "line", "fill_rgb", "fill_cmyk", "stroke_rgb", "stroke_cmyk"]);
    assert_eq!(
        registry.get_procedure("rect").map(|p| p.body.as_str()),
        Some("/rect { newpath moveto rlineto rlineto rlineto rlineto closepath } def")
    );
}

#[test]
fn new_names_come_last() {
    let mut registry = ProcedureRegistry::new();
    registry.add_procedure(procedure("b", "2"));
    registry.add_procedure(procedure("a", "1"));
    registry.add_procedure(procedure("b", "3"));
    let listed: Vec<(&str, &str)> = registry
        .list_procedures()
        .into_iter()
        .map(|p| (p.name.as_str(), p.body.as_str()))
        .collect();
    assert_eq!(listed, vec![("b", "3"), ("a", "1")]);
}

#[test]
fn preamble_defines_each_procedure_on_a_line() {
    let mut registry = ProcedureRegistry::new();
    registry.add_procedure(procedure("one", "/one { } def"));
    registry.add_procedure(procedure("two", "/two { } def"));
    let mut out = String::from("%\n");
    registry.write_preamble(&mut out);
    assert_eq!(out, "%\n/one { } def\n/two { } def\n");
}

#[test]
fn images_are_numbered_by_registration() {
    let registry = ImageRegistry::new()
        .add("a.png".to_string(), "img/a.png".to_string())
        .add("b.png".to_string(), "img/b.png".to_string());
    assert_eq!(registry.get_procedure_id("b.png".to_string()), Some("imager2".to_string()));
    let registry = ImageRegistry::new()
        .add("a.png".to_string(), "img/a.png".to_string())
        .add("b.png".to_string(), "img/b.png".to_string());
    assert_eq!(registry.get_procedure_id("a.png".to_string()), Some("imager1".to_string()));
}

#[test]
fn unknown_image_has_no_procedure() {
    assert_eq!(ImageRegistry::new().get_procedure_id("a.png".to_string()), None);
    let registry = ImageRegistry::new().add("a.png".to_string(), "a.png".to_string());
    assert_eq!(registry.get_procedure_id("A.png".to_string()), None);
}

#[test]
fn registering_a_file_name_again_replaces_it() {
    let registry = ImageRegistry::new()
        .add("a.png".to_string(), "old/a.png".to_string())
        .add("b.png".to_string(), "b.png".to_string())
        .add("a.png".to_string(), "new/a.png".to_string());
    assert_eq!(registry.get_procedure_id("a.png".to_string()), Some("imager3".to_string()));
}

#[test]
fn twelfth_image_is_imager12() {
    let mut registry = ImageRegistry::new();
    for i in 0..12 {
        registry = registry.add(format!("{i}.png"), format!("dir/{i}.png"));
    }
    assert_eq!(registry.get_procedure_id("11.png".to_string()), Some("imager12".to_string()));
}

#[test]
fn new_image_is_contained_and_clamped() {
    let image = InlineImage::new(
        "img/a.png",
        Scalar::from_units(-1),
        Scalar::from_units(2),
        Scalar::from_units(300),
        Scalar::from_thousandths(-1),
    );
    assert_eq!(image.file_path(), "img/a.png");
    assert_eq!(image.get_fit(), ImageFit::Contain);
    assert_eq!(
        image.bounds(),
        (
            Scalar::from_units(0),
            Scalar::from_units(2),
            Scalar::from_units(300),
            Scalar::from_units(0)
        )
    );
}

#[test]
fn fit_policy_is_read_back() {
    for fit in [
        ImageFit::Contain,
        ImageFit::Stretch,
        ImageFit::StretchHorizontal,
        ImageFit::StretchVertical,
        ImageFit::Crop,
    ] {
        let image = InlineImage::new(
            "a.png",
            Scalar::from_units(1),
            Scalar::from_units(2),
            Scalar::from_units(3),
            Scalar::from_units(4),
        )
        .fit(fit);
        assert_eq!(image.get_fit(), fit);
        assert_eq!(image.file_path(), "a.png");
    }
}

#[test]
fn contain_scale_is_the_smaller_ratio() {
    let image = InlineImage::new(
        "a.png",
        Scalar::from_units(0),
        Scalar::from_units(0),
        Scalar::from_units(300),
        Scalar::from_units(100),
    );
    assert_eq!(
        image.contain_scale(Scalar::from_units(600), Scalar::from_units(400)),
        Some(Scalar::from_thousandths(250))
    );
    assert_eq!(
        image.contain_scale(Scalar::from_units(100), Scalar::from_units(10)),
        Some(Scalar::from_units(3))
    );
    assert_eq!(
        image.contain_scale(Scalar::from_units(900), Scalar::from_units(100)),
        Some(Scalar::from_thousandths(333))
    );
}

#[test]
fn contain_scale_needs_a_source_with_extent() {
    let image = InlineImage::new(
        "a.png",
        Scalar::from_units(0),
        Scalar::from_units(0),
        Scalar::from_units(300),
        Scalar::from_units(100),
    );
    assert_eq!(image.contain_scale(Scalar::from_units(0), Scalar::from_units(400)), None);
    assert_eq!(image.contain_scale(Scalar::from_units(600), Scalar::from_units(-1)), None);
}

#[test]
fn contain_scale_saturates() {
    let image = InlineImage::new(
        "a.png",
        Scalar::from_units(0),
        Scalar::from_units(0),
        Scalar::from_thousandths(i64::MAX),
        Scalar::from_thousandths(i64::MAX),
    );
    assert_eq!(
        image.contain_scale(Scalar::from_thousandths(1), Scalar::from_thousandths(1)),
        Some(Scalar::from_thousandths(i64::MAX))
    );
}

#[test]
fn registry_counts_registrations() {
    let registry = ImageRegistry::new();
    assert_eq!(registry.count(), 0);
    let registry = registry
        .add("a.png".to_string(), "a.png".to_string())
        .add("a.png".to_string(), "a.png".to_string());
    assert_eq!(registry.count(), 2);
}
