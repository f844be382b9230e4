use vstd::prelude::*;
use vstd::string::StringExecFns;

verus! {

/// A device record as the API returns it.
#[derive(Clone, Debug, PartialEq, Eq)]
pub struct Device {
    pub id: u64,
    pub name: String,
    pub kind: String,
}

/// The collection of custom dimensions configured on the account.
#[derive(Clone, Debug)]
pub struct Dimensions {
    pub dimensions: Vec<Dimension>,
}

/// One custom dimension.
#[derive(Clone, Debug, PartialEq, Eq)]
pub struct Dimension {
    pub id: u64,
    pub name: String,
    pub display_name: String,
    pub kind: String,
    pub bulk: bool,
    pub internal: bool,
}

impl Default for Dimension {
    fn default() -> (d: Dimension)
        ensures
            d.id == 0,
            d.name@ == Seq::<char>::empty(),
            d.display_name@ == Seq::<char>::empty(),
            d.kind@ == Seq::<char>::empty(),
            !d.bulk,
            !d.internal,
    {
        Dimension {
            id: 0,
            name: String::new(),
            display_name: String::new(),
            kind: String::new(),
            bulk: false,
            internal: false,
        }
    }
}

/// The path of the lookup of one device by name, under the configured
/// endpoint.
pub fn device_url(endpoint: &str, name: &str) -> (url: String)
    ensures
        url@ == endpoint@ + "/api/internal/device/"@ + name@,
{
    endpoint.to_owned().concat("/api/internal/device/").concat(name)
}

/// The path of the listing of custom dimensions, under the configured
/// endpoint.
pub fn custom_dimensions_url(endpoint: &str) -> (url: String)
    ensures
        url@ == endpoint@ + "/api/internal/customdimensions"@,
{
    endpoint.to_owned().concat("/api/internal/customdimensions")
}

/// The path that a new custom dimension is posted to, under the configured
/// endpoint.
pub fn custom_dimension_url(endpoint: &str) -> (url: String)
    ensures
        url@ == endpoint@ + "/api/internal/customdimension"@,
{
    endpoint.to_owned().concat("/api/internal/customdimension")
}

/// The path that a batch of populator changes for one dimension column is
/// posted to, under the configured endpoint.
pub fn populators_url(endpoint: &str, column: &str) -> (url: String)
    ensures
        url@ == endpoint@ + "/api/internal/batch/customdimensions/"@ + column@
            + "/populators"@,
{
    endpoint.to_owned().concat("/api/internal/batch/customdimensions/").concat(column).concat(
        "/populators",
    )
}

} // verus!
