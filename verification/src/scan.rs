//! Scanner discovery and scanning: the tokens that select a driver and a
//! paper source, the two commands, and the records that the helper answers
//! with.

use vstd::prelude::*;
use vstd::string::*;
use crate::command::{optional_token, push_token};
use crate::decimal::{decimal_string, decimal_text, lemma_decimal_text_shape};
use crate::error::{ErrorKind, ErrorModel, Naps2Error};
use crate::helper::{
    execution_failure,
    launch_failure,
    launched,
    shape_failure,
    shaped,
    utf8_lossy,
    HelperOutput,
    HelperRunner,
};
use crate::json::{
    as_array,
    as_object,
    as_text_list,
    fields_view,
    items_view,
    json_document,
    lemma_read_all_stops,
    lemma_view_of_parts,
    member,
    read_all,
    read_text_field,
    read_text_list_field,
    text_field,
    text_list_field,
    texts_view,
    JsonField,
    JsonModel,
    JsonValue,
};

verus! {

/// The scanner back ends that the helper can be asked to use.
///
/// `Wia` and `Twain` exist on Windows only; the others everywhere else.
#[derive(Debug, Clone, Copy, PartialEq, Eq, Structural)]
pub enum Driver {
    Default,
    Apple,
    Sane,
    Escl,
    Wia,
    Twain,
}

impl Driver {
    /// The token by which the helper's command line knows this driver.
    pub open spec fn token(self) -> Seq<char> {
        match self {
            Driver::Default => "Default"@,
            Driver::Apple => "Apple"@,
            Driver::Sane => "Sane"@,
            Driver::Escl => "Escl"@,
            Driver::Wia => "Wia"@,
            Driver::Twain => "Twain"@,
        }
    }

    /// The token by which the helper's command line knows this driver.
    pub fn to_string(&self) -> (token: &'static str)
        ensures
            token@ == self.token(),
    {
        match self {
            Driver::Default => "Default",
            Driver::Apple => "Apple",
            Driver::Sane => "Sane",
            Driver::Escl => "Escl",
            Driver::Wia => "Wia",
            Driver::Twain => "Twain",
        }
    }

    /// True of the drivers that exist on Windows only.
    pub open spec fn windows_only(self) -> bool {
        self == Driver::Wia || self == Driver::Twain
    }

    /// True of the drivers that exist on Windows only.
    pub fn is_windows_only(&self) -> (only: bool)
        ensures
            only == self.windows_only(),
    {
        match self {
            Driver::Wia => true,
            Driver::Twain => true,
            _ => false,
        }
    }

    /// The drivers that can be used on Windows, in the order in which they are tried.
    pub fn windows_drivers() -> (drivers: Vec<Driver>)
        ensures
            drivers@ == seq![Driver::Default, Driver::Wia, Driver::Twain],
    {
        let mut drivers: Vec<Driver> = Vec::new();
        drivers.push(Driver::Default);
        drivers.push(Driver::Wia);
        drivers.push(Driver::Twain);
        assert(drivers@ =~= seq![Driver::Default, Driver::Wia, Driver::Twain]);
        drivers
    }

    /// The drivers that can be used on macOS, in the order in which they are tried.
    pub fn mac_drivers() -> (drivers: Vec<Driver>)
        ensures
            drivers@ == seq![Driver::Default, Driver::Apple, Driver::Sane, Driver::Escl],
            forall|i: int| 0 <= i < drivers@.len() ==> !(#[trigger] drivers@[i]).windows_only(),
    {
        let mut drivers: Vec<Driver> = Vec::new();
        drivers.push(Driver::Default);
        drivers.push(Driver::Apple);
        drivers.push(Driver::Sane);
        drivers.push(Driver::Escl);
        assert(drivers@ =~= seq![Driver::Default, Driver::Apple, Driver::Sane, Driver::Escl]);
        drivers
    }
}

/// Every driver has a token of its own, and none is empty.
pub proof fn lemma_driver_tokens_distinct(a: Driver, b: Driver)
    ensures
        a.token().len() > 0,
        a.token() == b.token() <==> a == b,
{
    reveal_strlit("Default");
    reveal_strlit("Apple");
    reveal_strlit("Sane");
    reveal_strlit("Escl");
    reveal_strlit("Wia");
    reveal_strlit("Twain");
    if a != b && a.token() == b.token() {
        assert(a.token().len() == b.token().len());
        assert(a.token()[0] == b.token()[0]);
    }
}

/// Where the scanner takes the paper from.
#[derive(Debug, Clone, Copy, PartialEq, Eq, Structural)]
pub enum PaperSource {
    Flatbed,
    Feeder,
    Duplex,
}

impl PaperSource {
    /// The token by which the helper's command line knows this paper source.
    pub open spec fn token(self) -> Seq<char> {
        match self {
            PaperSource::Flatbed => "Flatbed"@,
            PaperSource::Feeder => "Feeder"@,
            PaperSource::Duplex => "Duplex"@,
        }
    }

    /// The token by which the helper's command line knows this paper source.
    pub fn to_string(&self) -> (token: &'static str)
        ensures
            token@ == self.token(),
    {
        match self {
            PaperSource::Flatbed => "Flatbed",
            PaperSource::Feeder => "Feeder",
            PaperSource::Duplex => "Duplex",
        }
    }
}

/// Every paper source has a token of its own, and none is empty.
pub proof fn lemma_paper_source_tokens_distinct(a: PaperSource, b: PaperSource)
    ensures
        a.token().len() > 0,
        a.token() == b.token() <==> a == b,
{
    reveal_strlit("Flatbed");
    reveal_strlit("Feeder");
    reveal_strlit("Duplex");
    if a != b && a.token() == b.token() {
        assert(a.token().len() == b.token().len());
        assert(a.token()[1] == b.token()[1]);
    }
}

/// The token of a driver that may be left out.
pub open spec fn driver_token(driver: Option<Driver>) -> Option<Seq<char>> {
    match driver {
        Some(d) => Some(d.token()),
        None => None,
    }
}

/// The token of a paper source that may be left out.
pub open spec fn paper_source_token(source: Option<PaperSource>) -> Option<Seq<char>> {
    match source {
        Some(s) => Some(s.token()),
        None => None,
    }
}

/// The arguments that ask the helper to list the scanners: the two words of
/// the command, then the driver if one is named.
pub open spec fn list_devices_command(driver: Option<Driver>) -> Seq<Seq<char>> {
    seq!["scan"@, "list-devices"@] + optional_token(driver_token(driver))
}

/// The arguments that ask the helper to scan: the two words of the command,
/// the device, the driver if one is named, the resolution in decimal
/// notation, and the paper source if one is named.
pub open spec fn scan_to_images_command(
    device_id: Seq<char>,
    driver: Option<Driver>,
    dpi: u32,
    paper_source: Option<PaperSource>,
) -> Seq<Seq<char>> {
    seq!["scan"@, "to-images"@, device_id] + optional_token(driver_token(driver)) + seq![
        decimal_text(dpi as nat),
    ] + optional_token(paper_source_token(paper_source))
}

/// Builds the arguments that ask the helper to list the scanners.
pub fn list_devices_args(driver: Option<Driver>) -> (args: Vec<String>)
    ensures
        texts_view(args@) == list_devices_command(driver),
{
    let mut args: Vec<String> = Vec::new();
    push_token(&mut args, "scan");
    push_token(&mut args, "list-devices");
    if let Some(d) = driver {
        push_token(&mut args, d.to_string());
    }
    assert(texts_view(args@) =~= list_devices_command(driver));
    args
}

/// Builds the arguments that ask the helper to scan.
pub fn scan_to_images_args(
    device_id: &str,
    driver: Option<Driver>,
    dpi: u32,
    paper_source: Option<PaperSource>,
) -> (args: Vec<String>)
    ensures
        texts_view(args@) == scan_to_images_command(device_id@, driver, dpi, paper_source),
{
    let mut args: Vec<String> = Vec::new();
    push_token(&mut args, "scan");
    push_token(&mut args, "to-images");
    push_token(&mut args, device_id);
    if let Some(d) = driver {
        push_token(&mut args, d.to_string());
    }
    let resolution = decimal_string(dpi);
    push_token(&mut args, resolution.as_str());
    if let Some(source) = paper_source {
        push_token(&mut args, source.to_string());
    }
    assert(texts_view(args@) =~= scan_to_images_command(device_id@, driver, dpi, paper_source));
    args
}

/// The layout of the arguments that list the scanners: a driver that is
/// left out leaves no token behind, not even an empty one, and a driver that
/// is named stands last.
pub proof fn lemma_list_devices_command_layout(driver: Option<Driver>)
    ensures
        list_devices_command(None) == seq!["scan"@, "list-devices"@],
        driver matches Some(d) ==> list_devices_command(driver) == seq![
            "scan"@,
            "list-devices"@,
            d.token(),
        ],
        forall|i: int|
            0 <= i < list_devices_command(driver).len() ==> (#[trigger] list_devices_command(
                driver,
            )[i]).len() > 0,
{
    reveal_strlit("scan");
    reveal_strlit("list-devices");
    assert(list_devices_command(None) =~= seq!["scan"@, "list-devices"@]);
    match driver {
        Some(d) => {
            lemma_driver_tokens_distinct(d, d);
            assert(list_devices_command(driver) =~= seq!["scan"@, "list-devices"@, d.token()]);
        },
        None => {},
    }
}

/// How many tokens an optional value contributes.
pub open spec fn present<T>(value: Option<T>) -> int {
    if value is Some {
        1
    } else {
        0
    }
}

/// The layout of the arguments that scan: the device stands third, the
/// driver, if named, fourth, then the resolution, then the paper source, if
/// named. What is left out leaves no token behind: but for the device, which
/// is the caller's own text, no token is empty.
pub proof fn lemma_scan_to_images_command_layout(
    device_id: Seq<char>,
    driver: Option<Driver>,
    dpi: u32,
    paper_source: Option<PaperSource>,
)
    ensures
        scan_to_images_command(device_id, driver, dpi, paper_source).len() == 4 + present(driver)
            + present(paper_source),
        scan_to_images_command(device_id, driver, dpi, paper_source)[0] == "scan"@,
        scan_to_images_command(device_id, driver, dpi, paper_source)[1] == "to-images"@,
        scan_to_images_command(device_id, driver, dpi, paper_source)[2] == device_id,
        driver matches Some(d) ==> scan_to_images_command(device_id, driver, dpi, paper_source)[3]
            == d.token(),
        scan_to_images_command(device_id, driver, dpi, paper_source)[3 + present(driver)]
            == decimal_text(dpi as nat),
        paper_source matches Some(p) ==> scan_to_images_command(
            device_id,
            driver,
            dpi,
            paper_source,
        )[4 + present(driver)] == p.token(),
        forall|i: int|
            0 <= i < scan_to_images_command(device_id, driver, dpi, paper_source).len() && i != 2
                ==> (#[trigger] scan_to_images_command(device_id, driver, dpi, paper_source)[i]).len()
                > 0,
{
    reveal_strlit("scan");
    reveal_strlit("to-images");
    lemma_decimal_text_shape(dpi as nat);
    if let Some(d) = driver {
        lemma_driver_tokens_distinct(d, d);
    }
    if let Some(p) = paper_source {
        lemma_paper_source_tokens_distinct(p, p);
    }
}

/// A scanner that the helper found.
#[derive(Debug, Clone, PartialEq, Eq)]
pub struct ScannerDevice {
    pub id: String,
    pub name: String,
    pub driver: String,
}

/// What a `ScannerDevice` denotes.
pub struct DeviceModel {
    pub id: Seq<char>,
    pub name: Seq<char>,
    pub driver: Seq<char>,
}

impl View for ScannerDevice {
    type V = DeviceModel;

    open spec fn view(&self) -> DeviceModel {
        DeviceModel { id: self.id@, name: self.name@, driver: self.driver@ }
    }
}

/// What a list of devices denotes, item by item.
pub open spec fn devices_view(devices: Seq<ScannerDevice>) -> Seq<DeviceModel> {
    Seq::new(devices.len(), |i: int| devices[i]@)
}

/// The device that a JSON value describes: an object with the strings `Id`,
/// `Name` and `Driver`. Other members are passed over. The report is that of
/// the first of the three, in this order, that is missing or no string.
pub open spec fn device_of(json: JsonModel) -> Result<DeviceModel, Seq<char>> {
    match as_object(json) {
        Err(e) => Err(e),
        Ok(fields) => match text_field(fields, "Id"@) {
            Err(e) => Err(e),
            Ok(id) => match text_field(fields, "Name"@) {
                Err(e) => Err(e),
                Ok(name) => match text_field(fields, "Driver"@) {
                    Err(e) => Err(e),
                    Ok(driver) => Ok(DeviceModel { id, name, driver }),
                },
            },
        },
    }
}

/// `device_of` as a reader of items.
pub open spec fn device_reader() -> spec_fn(JsonModel) -> Result<DeviceModel, Seq<char>> {
    |json: JsonModel| device_of(json)
}

/// The devices that a JSON value lists: an array of devices.
pub open spec fn devices_of(json: JsonModel) -> Result<Seq<DeviceModel>, Seq<char>> {
    match as_array(json) {
        Ok(items) => read_all(items, device_reader()),
        Err(e) => Err(e),
    }
}

/// The JSON object that describes a device.
pub open spec fn device_json(device: DeviceModel) -> JsonModel {
    JsonModel::Object(
        seq![
            ("Id"@, JsonModel::Text(device.id)),
            ("Name"@, JsonModel::Text(device.name)),
            ("Driver"@, JsonModel::Text(device.driver)),
        ],
    )
}

/// The views of the two sides of a decoded device.
pub open spec fn device_result_view(r: Result<ScannerDevice, String>) -> Result<
    DeviceModel,
    Seq<char>,
> {
    match r {
        Ok(device) => Ok(device@),
        Err(e) => Err(e@),
    }
}

/// The views of the two sides of a decoded list of devices.
pub open spec fn devices_result_view(r: Result<Vec<ScannerDevice>, String>) -> Result<
    Seq<DeviceModel>,
    Seq<char>,
> {
    match r {
        Ok(devices) => Ok(devices_view(devices@)),
        Err(e) => Err(e@),
    }
}

impl ScannerDevice {
    /// Decodes a device from the JSON object that describes it.
    pub fn from_json(json: &JsonValue) -> (r: Result<ScannerDevice, String>)
        ensures
            device_result_view(r) == device_of(json@),
    {
        let fields = match json.object_fields() {
            Ok(fields) => fields,
            Err(e) => {
                return Err(e);
            },
        };
        let id = match read_text_field(fields, "Id") {
            Ok(id) => id,
            Err(e) => {
                return Err(e);
            },
        };
        let name = match read_text_field(fields, "Name") {
            Ok(name) => name,
            Err(e) => {
                return Err(e);
            },
        };
        let driver = match read_text_field(fields, "Driver") {
            Ok(driver) => driver,
            Err(e) => {
                return Err(e);
            },
        };
        Ok(ScannerDevice { id, name, driver })
    }

    /// Encodes the device as the JSON object that describes it.
    pub fn to_json(&self) -> (json: JsonValue)
        ensures
            json@ == device_json(self@),
    {
        let mut fields: Vec<JsonField> = Vec::new();
        fields.push(
            JsonField { name: String::from_str("Id"), value: JsonValue::Text(self.id.clone()) },
        );
        fields.push(
            JsonField { name: String::from_str("Name"), value: JsonValue::Text(self.name.clone()) },
        );
        fields.push(
            JsonField {
                name: String::from_str("Driver"),
                value: JsonValue::Text(self.driver.clone()),
            },
        );
        let json = JsonValue::Object(fields);
        proof {
            lemma_view_of_parts(&json);
            assert(fields_view(fields@) =~= device_json(self@)->Object_0);
        }
        json
    }
}

/// Decoding the JSON object of a device gives the device back.
pub proof fn lemma_device_round_trip(device: DeviceModel)
    ensures
        device_of(device_json(device)) == Ok::<_, Seq<char>>(device),
{
    reveal_strlit("Id");
    reveal_strlit("Name");
    reveal_strlit("Driver");
    reveal_with_fuel(member, 4);
    let fields = device_json(device)->Object_0;
    assert("Id"@ != "Name"@) by {
        assert("Id"@.len() != "Name"@.len());
    }
    assert("Id"@ != "Driver"@) by {
        assert("Id"@.len() != "Driver"@.len());
    }
    assert("Name"@ != "Driver"@) by {
        assert("Name"@.len() != "Driver"@.len());
    }
    assert(member(fields, "Id"@) == Some(JsonModel::Text(device.id)));
    assert(fields.subrange(1, 3)[0] == fields[1]);
    assert(fields.subrange(1, 3).subrange(1, 2)[0] == fields[2]);
    assert(member(fields, "Name"@) == Some(JsonModel::Text(device.name)));
    assert(member(fields, "Driver"@) == Some(JsonModel::Text(device.driver)));
}

/// Decodes the list of devices from the JSON array that the helper writes.
pub fn devices_from_json(json: &JsonValue) -> (r: Result<Vec<ScannerDevice>, String>)
    ensures
        devices_result_view(r) == devices_of(json@),
{
    let items = match json.array_items() {
        Ok(items) => items,
        Err(e) => {
            return Err(e);
        },
    };
    let ghost all = items_view(items@);
    let mut devices: Vec<ScannerDevice> = Vec::new();
    let mut i: usize = 0;
    assert(all.take(0) =~= Seq::empty());
    assert(devices_view(devices@) =~= Seq::empty());
    while i < items.len()
        invariant
            i <= items.len(),
            all == items_view(items@),
            as_array(json@) == Ok::<_, Seq<char>>(all),
            read_all(all.take(i as int), device_reader()) == Ok::<_, Seq<char>>(
                devices_view(devices@),
            ),
        decreases items.len() - i,
    {
        assert(all.take(i + 1).drop_last() =~= all.take(i as int));
        assert(all.take(i + 1).last() == items@[i as int]@);
        match ScannerDevice::from_json(&items[i]) {
            Ok(device) => {
                let ghost before = devices_view(devices@);
                devices.push(device);
                assert(devices_view(devices@) =~= before.push(device@));
            },
            Err(e) => {
                proof {
                    lemma_read_all_stops(all, device_reader(), i as int);
                }
                return Err(e);
            },
        }
        i += 1;
    }
    assert(all.take(i as int) =~= all);
    Ok(devices)
}

/// What one scan produced: the pages, in order, and the directory that the
/// helper put them in. Both belong to the helper; nothing here removes them.
#[derive(Debug, Clone, PartialEq, Eq)]
pub struct ScanResult {
    pub image_paths: Vec<String>,
    pub temp_directory: String,
}

/// What a `ScanResult` denotes.
pub struct ScanResultModel {
    pub image_paths: Seq<Seq<char>>,
    pub temp_directory: Seq<char>,
}

impl View for ScanResult {
    type V = ScanResultModel;

    open spec fn view(&self) -> ScanResultModel {
        ScanResultModel {
            image_paths: texts_view(self.image_paths@),
            temp_directory: self.temp_directory@,
        }
    }
}

/// The scan that a JSON value describes: an object with the list of strings
/// `ImagePaths` and the string `TempDirectory`, read in this order.
pub open spec fn scan_result_of(json: JsonModel) -> Result<ScanResultModel, Seq<char>> {
    match as_object(json) {
        Err(e) => Err(e),
        Ok(fields) => match text_list_field(fields, "ImagePaths"@) {
            Err(e) => Err(e),
            Ok(image_paths) => match text_field(fields, "TempDirectory"@) {
                Err(e) => Err(e),
                Ok(temp_directory) => Ok(ScanResultModel { image_paths, temp_directory }),
            },
        },
    }
}

/// A list of strings as a JSON array.
pub open spec fn text_list_json(texts: Seq<Seq<char>>) -> JsonModel {
    JsonModel::Array(Seq::new(texts.len(), |i: int| JsonModel::Text(texts[i])))
}

/// The JSON object that describes a scan.
pub open spec fn scan_result_json(result: ScanResultModel) -> JsonModel {
    JsonModel::Object(
        seq![
            ("ImagePaths"@, text_list_json(result.image_paths)),
            ("TempDirectory"@, JsonModel::Text(result.temp_directory)),
        ],
    )
}

/// The views of the two sides of a decoded scan.
pub open spec fn scan_result_view(r: Result<ScanResult, String>) -> Result<
    ScanResultModel,
    Seq<char>,
> {
    match r {
        Ok(result) => Ok(result@),
        Err(e) => Err(e@),
    }
}

/// Encodes a list of strings as a JSON array.
pub fn text_list_to_json(texts: &Vec<String>) -> (json: JsonValue)
    ensures
        json@ == text_list_json(texts_view(texts@)),
{
    let mut items: Vec<JsonValue> = Vec::new();
    let mut i: usize = 0;
    while i < texts.len()
        invariant
            i <= texts.len(),
            items@.len() == i,
            forall|k: int| 0 <= k < i ==> (#[trigger] items@[k])@ == JsonModel::Text(texts@[k]@),
        decreases texts.len() - i,
    {
        items.push(JsonValue::Text(texts[i].clone()));
        i += 1;
    }
    let json = JsonValue::Array(items);
    proof {
        lemma_view_of_parts(&json);
        assert(items_view(items@) =~= text_list_json(texts_view(texts@))->Array_0);
    }
    json
}

impl ScanResult {
    /// Decodes a scan from the JSON object that describes it.
    pub fn from_json(json: &JsonValue) -> (r: Result<ScanResult, String>)
        ensures
            scan_result_view(r) == scan_result_of(json@),
    {
        let fields = match json.object_fields() {
            Ok(fields) => fields,
            Err(e) => {
                return Err(e);
            },
        };
        let image_paths = match read_text_list_field(fields, "ImagePaths") {
            Ok(image_paths) => image_paths,
            Err(e) => {
                return Err(e);
            },
        };
        let temp_directory = match read_text_field(fields, "TempDirectory") {
            Ok(temp_directory) => temp_directory,
            Err(e) => {
                return Err(e);
            },
        };
        Ok(ScanResult { image_paths, temp_directory })
    }

    /// Encodes the scan as the JSON object that describes it.
    pub fn to_json(&self) -> (json: JsonValue)
        ensures
            json@ == scan_result_json(self@),
    {
        let mut fields: Vec<JsonField> = Vec::new();
        fields.push(
            JsonField {
                name: String::from_str("ImagePaths"),
                value: text_list_to_json(&self.image_paths),
            },
        );
        fields.push(
            JsonField {
                name: String::from_str("TempDirectory"),
                value: JsonValue::Text(self.temp_directory.clone()),
            },
        );
        let json = JsonValue::Object(fields);
        proof {
            lemma_view_of_parts(&json);
            assert(fields_view(fields@) =~= scan_result_json(self@)->Object_0);
        }
        json
    }
}

/// Decoding the JSON array of a list of strings gives the list back.
pub proof fn lemma_text_list_round_trip(texts: Seq<Seq<char>>)
    ensures
        as_text_list(text_list_json(texts)) == Ok::<_, Seq<char>>(texts),
    decreases texts.len(),
{
    let items = text_list_json(texts)->Array_0;
    if texts.len() == 0 {
        assert(texts =~= Seq::empty());
    } else {
        lemma_text_list_round_trip(texts.drop_last());
        assert(items.drop_last() =~= text_list_json(texts.drop_last())->Array_0);
        assert(items.last() == JsonModel::Text(texts.last()));
        assert(texts.drop_last().push(texts.last()) =~= texts);
    }
}

/// Decoding the JSON object of a scan gives the scan back.
pub proof fn lemma_scan_result_round_trip(result: ScanResultModel)
    ensures
        scan_result_of(scan_result_json(result)) == Ok::<_, Seq<char>>(result),
{
    reveal_strlit("ImagePaths");
    reveal_strlit("TempDirectory");
    reveal_with_fuel(member, 3);
    let fields = scan_result_json(result)->Object_0;
    assert("ImagePaths"@ != "TempDirectory"@) by {
        assert("ImagePaths"@.len() != "TempDirectory"@.len());
    }
    assert(fields.subrange(1, 2)[0] == fields[1]);
    assert(member(fields, "ImagePaths"@) == Some(text_list_json(result.image_paths)));
    assert(member(fields, "TempDirectory"@) == Some(JsonModel::Text(result.temp_directory)));
    lemma_text_list_round_trip(result.image_paths);
}

/// What listing the scanners returns for a finished run of the helper.
pub open spec fn devices_outcome(output: HelperOutput) -> Result<Seq<DeviceModel>, ErrorModel> {
    match output.spec_stdout_json() {
        Ok(json) => shape_failure(devices_of(json)),
        Err(e) => Err(e),
    }
}

/// What scanning returns for a finished run of the helper.
pub open spec fn scan_outcome(output: HelperOutput) -> Result<ScanResultModel, ErrorModel> {
    match output.spec_stdout_json() {
        Ok(json) => shape_failure(scan_result_of(json)),
        Err(e) => Err(e),
    }
}

/// What listing the scanners returns for one attempt to run the helper,
/// whether it ran or could not be started.
pub open spec fn devices_of_run(outcome: Result<HelperOutput, String>) -> Result<
    Seq<DeviceModel>,
    ErrorModel,
> {
    match outcome {
        Ok(output) => devices_outcome(output),
        Err(why) => Err(launch_failure(why@)),
    }
}

/// What scanning returns for one attempt to run the helper, whether it ran
/// or could not be started.
pub open spec fn scan_of_run(outcome: Result<HelperOutput, String>) -> Result<
    ScanResultModel,
    ErrorModel,
> {
    match outcome {
        Ok(output) => scan_outcome(output),
        Err(why) => Err(launch_failure(why@)),
    }
}

/// The views of the two sides of the result of listing the scanners.
pub open spec fn devices_or_error_view(r: Result<Vec<ScannerDevice>, Naps2Error>) -> Result<
    Seq<DeviceModel>,
    ErrorModel,
> {
    match r {
        Ok(devices) => Ok(devices_view(devices@)),
        Err(e) => Err(e@),
    }
}

/// The views of the two sides of the result of scanning.
pub open spec fn scan_or_error_view(r: Result<ScanResult, Naps2Error>) -> Result<
    ScanResultModel,
    ErrorModel,
> {
    match r {
        Ok(result) => Ok(result@),
        Err(e) => Err(e@),
    }
}

/// Judges a finished run of the helper that was asked to list the scanners.
///
/// A run that did not end well is a `HelperExecutionError` with the text of
/// standard error, whatever standard output holds. A run that ended well
/// gives the devices that standard output lists, or a `HelperOutputError`
/// where it is no JSON or lists no devices.
pub fn devices_from_output(output: &HelperOutput) -> (r: Result<Vec<ScannerDevice>, Naps2Error>)
    ensures
        devices_or_error_view(r) == devices_outcome(*output),
        !output.succeeded() ==> (r matches Err(e) && e@ == execution_failure(output.stderr@)),
        output.succeeded() ==> (r matches Err(e) ==> e@.kind == ErrorKind::HelperOutput),
        output.succeeded() ==> (r is Ok <==> (json_document(utf8_lossy(output.stdout@))
            matches Ok(json) && devices_of(json) is Ok)),
{
    match output.stdout_json() {
        Ok(json) => shaped(devices_from_json(&json)),
        Err(e) => Err(e),
    }
}

/// Judges a finished run of the helper that was asked to scan.
///
/// A run that did not end well is a `HelperExecutionError` with the text of
/// standard error, whatever standard output holds. A run that ended well
/// gives the scan that standard output describes, or a `HelperOutputError`
/// where it is no JSON or describes no scan.
pub fn scan_result_from_output(output: &HelperOutput) -> (r: Result<ScanResult, Naps2Error>)
    ensures
        scan_or_error_view(r) == scan_outcome(*output),
        !output.succeeded() ==> (r matches Err(e) && e@ == execution_failure(output.stderr@)),
        output.succeeded() ==> (r matches Err(e) ==> e@.kind == ErrorKind::HelperOutput),
        output.succeeded() ==> (r is Ok <==> (json_document(utf8_lossy(output.stdout@))
            matches Ok(json) && scan_result_of(json) is Ok)),
{
    match output.stdout_json() {
        Ok(json) => shaped(ScanResult::from_json(&json)),
        Err(e) => Err(e),
    }
}

/// The part of the bindings that finds scanners and scans.
pub struct ScanClient {
    helper_path: String,
}

impl ScanClient {
    /// The path of the helper program that this client runs.
    pub closed spec fn path(&self) -> Seq<char> {
        self.helper_path@
    }

    /// A client for the helper program at `helper_path`.
    pub fn new(helper_path: String) -> (client: Self)
        ensures
            client.path() == helper_path@,
    {
        Self { helper_path }
    }

    /// The path of the helper program that this client runs.
    pub fn helper_path(&self) -> (path: &str)
        ensures
            path@ == self.path(),
    {
        self.helper_path.as_str()
    }

    /// Lists the scanners that the given driver, or the helper's own choice
    /// of driver, can reach.
    ///
    /// The helper is run once, with the arguments of `list_devices_args`,
    /// and what it leaves behind is judged by `devices_from_output`. What the
    /// run does is the runner's affair: the result is the judgement of some
    /// run, and a failure is of one of the two kinds that the bindings raise
    /// themselves.
    pub fn get_devices_with_driver<R: HelperRunner>(
        &self,
        runner: &R,
        driver: Option<Driver>,
    ) -> (r: Result<Vec<ScannerDevice>, Naps2Error>)
        ensures
            exists|outcome: Result<HelperOutput, String>|
                devices_or_error_view(r) == #[trigger] devices_of_run(outcome),
            r matches Err(e) ==> e.from_helper(),
    {
        let args = list_devices_args(driver);
        let outcome = runner.run(self.helper_path.as_str(), &args);
        let ghost seen = outcome;
        let r = match launched(outcome) {
            Ok(output) => devices_from_output(&output),
            Err(e) => Err(e),
        };
        assert(devices_or_error_view(r) == devices_of_run(seen));
        r
    }

    /// Lists the scanners that the helper's own choice of driver can reach.
    pub fn get_devices<R: HelperRunner>(&self, runner: &R) -> (r: Result<
        Vec<ScannerDevice>,
        Naps2Error,
    >)
        ensures
            exists|outcome: Result<HelperOutput, String>|
                devices_or_error_view(r) == #[trigger] devices_of_run(outcome),
            r matches Err(e) ==> e.from_helper(),
    {
        self.get_devices_with_driver(runner, None)
    }

    /// Scans with the given device at `dpi` dots per inch.
    ///
    /// The helper is run once, with the arguments of `scan_to_images_args`,
    /// and what it leaves behind is judged by `scan_result_from_output`.
    pub fn scan_to_images<R: HelperRunner>(
        &self,
        runner: &R,
        device_id: &str,
        driver: Option<Driver>,
        dpi: u32,
        paper_source: Option<PaperSource>,
    ) -> (r: Result<ScanResult, Naps2Error>)
        ensures
            exists|outcome: Result<HelperOutput, String>|
                scan_or_error_view(r) == #[trigger] scan_of_run(outcome),
            r matches Err(e) ==> e.from_helper(),
    {
        let args = scan_to_images_args(device_id, driver, dpi, paper_source);
        let outcome = runner.run(self.helper_path.as_str(), &args);
        let ghost seen = outcome;
        let r = match launched(outcome) {
            Ok(output) => scan_result_from_output(&output),
            Err(e) => Err(e),
        };
        assert(scan_or_error_view(r) == scan_of_run(seen));
        r
    }
}

} // verus!
