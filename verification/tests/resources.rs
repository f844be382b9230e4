use kentik_api::dns::{Answer, Question, Response};
use kentik_api::resources::{
    custom_dimension_url, custom_dimensions_url, device_url, populators_url, Device, Dimension,
};

#[test]
fn device_lookup_url() {
    assert_eq!(
        "http://api.test/api/internal/device/test",
        device_url("http://api.test", "test")
    );
}

#[test]
fn custom_dimension_urls() {
    assert_eq!(
        "http://api.test/api/internal/customdimensions",
        custom_dimensions_url("http://api.test")
    );
    assert_eq!(
        "http://api.test/api/internal/customdimension",
        custom_dimension_url("http://api.test")
    );
}

#[test]
fn populators_batch_url() {
    assert_eq!(
        "http://api.test/api/internal/batch/customdimensions/c_foo/populators",
        populators_url("http://api.test", "c_foo")
    );
}

#[test]
fn device_equality_by_content() {
    let a = Device { id: 1, name: "test".to_string(), kind: "router".to_string() };
    let b = Device { id: 1, name: "test".to_string(), kind: "router".to_string() };
    assert_eq!(a, b);
}

#[test]
fn dimension_default_is_blank() {
    let d = Dimension::default();
    assert_eq!(0, d.id);
    assert_eq!("", d.name);
    assert_eq!("", d.display_name);
    assert_eq!("", d.kind);
    assert!(!d.bulk);
    assert!(!d.internal);
}

#[test]
fn dns_records_compare_by_content() {
    let record = Response {
        question: Question { name: "foo0.com".to_string(), host: vec![10, 0, 0, 0] },
        answers: vec![Answer {
            name: String::new(),
            cname: String::new(),
            ip: vec![10, 1, 0, 0],
            ttl: 0,
        }],
    };
    assert_eq!(record, record.clone());
}
