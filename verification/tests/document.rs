use pslib::{
    Document, DocumentBuilder, DocumentType, Fabricate, Line, Page, Procedure, ProcedureRegistry,
    Rect, Scalar, TransformLineOrigin,
};

const STAMP: &str = "2024-01-02T03:04:05+00:00";

const BUILTINS: &str = "/rect { newpath moveto rlineto rlineto rlineto rlineto closepath } def\n\
/line { newpath moveto rlineto closepath } def\n\
/fillrgb { gsave setrgbcolor fill grestore } def\n\
/fillcmyk { gsave setcmykcolor fill grestore } def\n\
/strokergb { gsave setlinewidth setrgbcolor stroke grestore } def\n\
/strokecmyk { gsave setlinewidth setcmykcolor stroke grestore } def\n";

fn val(v: f64) -> Scalar {
    Scalar::from_thousandths((v * 1000.0).round() as i64)
}

fn ps_header(stamp: &str) -> String {
    format!(
        "%!PS-Adobe-3.0\n%%Creator: pslib 0.1.0\n%%CreationDate: {stamp}\n%%Pages: (atend)\n%%EndComments\n"
    )
}

/// The text between `%%CreationDate: ` and the end of its line.
fn creation_date(text: &str) -> String {
    let marker = "%%CreationDate: ";
    let start = text.find(marker).expect("a creation date") + marker.len();
    let end = start + text[start..].find('\n').expect("the end of the line");
    text[start..end].to_string()
}

fn first_page() -> Page {
    let mut page = Page::new(400, 400);
    let line = Line::new(val(100.0), val(100.0), val(100.0))
        .rotate(val(45.0))
        .set_orign(TransformLineOrigin::Left)
        .stroke_cmyk(val(2.0), val(1.0), val(0.0), val(0.0), val(0.25));
    let _ = page.add(&line);

    let rect = Rect::new(val(0.0), val(0.0), val(100.0), val(100.0))
        .fill_rgb(val(1.0), val(0.0), val(0.0))
        .stroke_rgb(val(2.0), val(0.0), val(0.0), val(0.0));
    let _ = page.add(&rect);

    let rect = Rect::new(val(155.0), val(155.0), val(100.0), val(100.0))
        .fill_rgb(val(1.0), val(0.0), val(0.0))
        .rotate(val(45.0))
        .scale(val(1.5), val(1.0))
        .stroke_rgb(val(2.0), val(0.0), val(0.0), val(0.0));
    let _ = page.add(&rect);
    page
}

const FIRST_PAGE: &str = "%%PageBoundingBox: 0 0 400 400\n\
<< /PageSize [400 400] >> setpagedevice\n\
gsave\n100 101 translate\n45 rotate\n-100 -101 translate\n\
100 0 100 100 line\n\
gsave\n2 setlinewidth\n1 0 0 0.25 setcmykcolor\nstroke\ngrestore\n\
grestore\n\
-100 0 0 -100 100 0 0 100 0 0 rect\n\
gsave\n1 0 0 setrgbcolor\nfill\ngrestore\n\
gsave\n2 setlinewidth\n0 0 0 setrgbcolor\nstroke\ngrestore\n\
gsave\n205 205 translate\n45 rotate\n1.5 1 scale\n-205 -205 translate\n\
-100 0 0 -100 100 0 0 100 155 155 rect\n\
gsave\n1 0 0 setrgbcolor\nfill\ngrestore\n\
gsave\n2 setlinewidth\n0 0 0 setrgbcolor\nstroke\ngrestore\n\
grestore\n\
showpage\n";

const SECOND_PAGE: &str = "%%PageBoundingBox: 0 0 500 300\n\
<< /PageSize [500 300] >> setpagedevice\n\
-400 0 0 -100 400 0 0 100 50 100 rect\n\
gsave\n2 setlinewidth\n0 1 0 0 setcmykcolor\nstroke\ngrestore\n\
showpage\n";

#[test]
fn test_ps_file() {
    let before = chrono::Utc::now();
    let mut doc = Document::new(String::new());
    let after = chrono::Utc::now();

    let page = first_page();
    let _ = doc.add(&page);

    let mut page = Page::new(500, 300);
    let rect = Rect::new(val(50.0), val(100.0), val(400.0), val(100.0)).stroke_cmyk(
        val(2.0),
        val(0.0),
        val(1.0),
        val(0.0),
        val(0.0),
    );
    let _ = page.add(&rect);
    let _ = doc.add(&page);

    let text = doc.close();

    let stamp = creation_date(&text);
    let moment = chrono::DateTime::parse_from_rfc3339(&stamp).expect("an RFC 3339 date");
    assert!(before <= moment && moment <= after);
    assert_eq!(moment.offset().local_minus_utc(), 0);

    let expected = format!(
        "{}{}%%Page: 1 1\n{}%%Page: 2 2\n{}%%EOF",
        ps_header(&stamp),
        BUILTINS,
        FIRST_PAGE,
        SECOND_PAGE
    );
    assert_eq!(text, expected);
}

#[test]
fn test_eps_file() {
    let mut doc = DocumentBuilder::builder()
        .document_type(DocumentType::EPS)
        .writer(String::new())
        .load_procedures(ProcedureRegistry::with_builtins())
        .bounding_box(500, 300)
        .build();

    let mut page = Page::new(500, 300);
    let rect = Rect::new(val(50.0), val(100.0), val(400.0), val(100.0)).fill_cmyk(
        val(0.5),
        val(1.0),
        val(0.5),
        val(0.0),
    );
    let _ = page.add(&rect);
    let _ = doc.add(&page);

    let text = doc.close();
    let stamp = creation_date(&text);
    assert!(chrono::DateTime::parse_from_rfc3339(&stamp).is_ok());
    let expected = format!(
        "%!PS-Adobe-3.0 EPSF-3.0\n%%BoundingBox: 0 0 500 300\n%%Creator: pslib 0.1.0\n\
         %%CreationDate: {stamp}\n%%Pages: 1\n%%EndComments\n{BUILTINS}\
         %%PageBoundingBox: 0 0 500 300\n<< /PageSize [500 300] >> setpagedevice\n\
         -400 0 0 -100 400 0 0 100 50 100 rect\n\
         gsave\n0.5 1 0.5 0 setcmykcolor\nfill\ngrestore\n\
         showpage\n%%EOF"
    );
    assert_eq!(text, expected);
}

#[test]
fn filled_rect_page_has_one_fill_block_and_no_stroke_block() {
    let mut page = Page::new(500, 300);
    let rect = Rect::new(val(50.0), val(100.0), val(400.0), val(100.0)).fill_cmyk(
        val(0.5),
        val(1.0),
        val(0.5),
        val(0.0),
    );
    page.add(&rect);
    let mut text = String::new();
    page.fabricate(&DocumentType::EPS, &mut text);
    assert_eq!(text.lines().filter(|line| *line == "fill").count(), 1);
    assert_eq!(text.matches("gsave\n0.5 1 0.5 0 setcmykcolor\nfill\ngrestore\n").count(), 1);
    assert_eq!(text.lines().filter(|line| *line == "stroke").count(), 0);
    assert_eq!(text.matches("setlinewidth").count(), 0);
    assert_eq!(text.lines().next(), Some("%%PageBoundingBox: 0 0 500 300"));
    assert_eq!(text.matches("%%PageBoundingBox:").count(), 1);
}

#[test]
fn pages_are_numbered_in_the_order_they_are_added() {
    let mut doc = Document::with_timestamp(String::new(), STAMP);
    let mut first = Page::new(10, 10);
    first.add(&Rect::new(val(1.0), val(1.0), val(1.0), val(1.0)));
    let second = Page::new(20, 20);
    doc.add(&first);
    doc.add(&second);
    assert_eq!(doc.page_count(), 2);
    let text = doc.close();
    let markers: Vec<&str> = text.lines().filter(|line| line.starts_with("%%Page: ")).collect();
    assert_eq!(markers, vec!["%%Page: 1 1", "%%Page: 2 2"]);
    let one = text.find("%%Page: 1 1\n").unwrap();
    let two = text.find("%%Page: 2 2\n").unwrap();
    assert!(one < two);
}

#[test]
fn tenth_page_is_marked_ten() {
    let mut doc = Document::with_timestamp(String::new(), STAMP);
    for _ in 0..10 {
        doc.add(&Page::new(1, 1));
    }
    let text = doc.close();
    assert!(text.contains("%%Page: 10 10\n%%PageBoundingBox: 0 0 1 1\n"));
    assert!(!text.contains("%%Page: 11 11"));
}

#[test]
fn header_with_given_timestamp() {
    let doc = Document::with_timestamp(String::new(), STAMP);
    assert_eq!(doc.doc_type(), DocumentType::PS);
    assert_eq!(doc.page_count(), 0);
    assert_eq!(doc.output(), format!("{}{}", ps_header(STAMP), BUILTINS));
    assert_eq!(doc.close(), format!("{}{}%%EOF", ps_header(STAMP), BUILTINS));
}

#[test]
fn document_follows_what_the_sink_holds() {
    let doc = Document::with_timestamp(String::from("% preface\n"), STAMP);
    assert_eq!(doc.close(), format!("% preface\n{}{}%%EOF", ps_header(STAMP), BUILTINS));
}

#[test]
fn builder_defaults_define_no_procedures() {
    let builder = DocumentBuilder::builder().writer(String::new());
    assert!(builder.is_complete());
    let doc = builder.build_with_timestamp(STAMP);
    assert_eq!(doc.doc_type(), DocumentType::PS);
    assert_eq!(doc.close(), format!("{}%%EOF", ps_header(STAMP)));
}

#[test]
fn builder_writes_loaded_procedures_in_order() {
    let mut registry = ProcedureRegistry::new();
    registry.add_procedure(Procedure { name: "b".to_string(), body: "/b { } def".to_string() });
    registry.add_procedure(Procedure { name: "a".to_string(), body: "/a { } def".to_string() });
    let doc = DocumentBuilder::builder()
        .writer(String::new())
        .load_procedures(registry)
        .build_with_timestamp(STAMP);
    assert_eq!(doc.close(), format!("{}/b {{ }} def\n/a {{ }} def\n%%EOF", ps_header(STAMP)));
}

#[test]
fn encapsulated_document_has_a_bounding_box_and_no_page_markers() {
    let mut doc = DocumentBuilder::builder()
        .document_type(DocumentType::EPS)
        .writer(String::new())
        .bounding_box(640, 480)
        .build_with_timestamp(STAMP);
    doc.add(&Page::new(500, 300));
    assert_eq!(doc.page_count(), 1);
    assert_eq!(
        doc.close(),
        "%!PS-Adobe-3.0 EPSF-3.0\n%%BoundingBox: 0 0 640 480\n%%Creator: pslib 0.1.0\n\
         %%CreationDate: 2024-01-02T03:04:05+00:00\n%%Pages: 1\n%%EndComments\n\
         %%PageBoundingBox: 0 0 500 300\n<< /PageSize [500 300] >> setpagedevice\nshowpage\n%%EOF"
    );
}

#[test]
fn bounding_box_sides_are_raised_to_one() {
    let doc = DocumentBuilder::builder()
        .document_type(DocumentType::EPS)
        .writer(String::new())
        .bounding_box(0, -7)
        .build_with_timestamp(STAMP);
    assert!(doc.output().contains("%%BoundingBox: 0 0 1 1\n"));
}

#[test]
fn builder_is_incomplete_without_sink_or_bounding_box() {
    assert!(!DocumentBuilder::builder().is_complete());
    assert!(DocumentBuilder::builder().writer(String::new()).is_complete());
    let eps = || DocumentBuilder::builder().document_type(DocumentType::EPS);
    assert!(!eps().writer(String::new()).is_complete());
    assert!(!eps().bounding_box(10, 10).is_complete());
    assert!(eps().writer(String::new()).bounding_box(10, 10).is_complete());
}

#[test]
fn page_sides_are_raised_to_one() {
    let page = Page::new(0, -300);
    assert_eq!((page.width(), page.height()), (1, 1));
    let page = Page::new(500, 300);
    assert_eq!((page.width(), page.height()), (500, 300));
    let page = Page::new(i32::MAX, i32::MIN);
    assert_eq!((page.width(), page.height()), (i32::MAX, 1));
}

#[test]
fn page_keeps_markup_in_the_order_added() {
    let mut page = Page::new(100, 100);
    assert_eq!(page.content(), "");
    page.add(&Line::new(val(1.0), val(2.0), val(3.0)).stroke_rgb(
        val(0.0),
        val(0.0),
        val(0.0),
        val(0.0),
    ));
    assert_eq!(page.content(), "3 0 1 2 line\n");
    page.add(&Rect::new(val(4.0), val(5.0), val(6.0), val(7.0)));
    assert_eq!(page.content(), "3 0 1 2 line\n-6 0 0 -7 6 0 0 7 4 5 rect\n");
}

#[test]
fn page_frame_is_the_same_for_both_kinds() {
    let mut page = Page::new(612, 792);
    page.add(&Rect::new(val(4.0), val(5.0), val(6.0), val(7.0)));
    let mut ps = String::from("before\n");
    page.fabricate(&DocumentType::PS, &mut ps);
    let mut eps = String::from("before\n");
    page.fabricate(&DocumentType::EPS, &mut eps);
    assert_eq!(ps, eps);
    assert_eq!(
        ps,
        "before\n%%PageBoundingBox: 0 0 612 792\n<< /PageSize [612 792] >> setpagedevice\n\
         -6 0 0 -7 6 0 0 7 4 5 rect\nshowpage\n"
    );
}
