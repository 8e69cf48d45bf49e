//! Reading a range of a sheet: finding the sheet by its title, addressing the
//! range, and what becomes of the service's responses.

use crate::error::ErrorView;
use crate::error::GsheetError;
use vstd::prelude::*;

verus! {

/// The sheet read when none is named.
pub const DEFAULT_SHEET_NAME: &'static str = "Sheet1";

/// The cells read when no range is given.
pub const DEFAULT_RANGE: &'static str = "A1:R100";

/// Stands between the sheet's title and the cells in the address of a range.
pub const RANGE_SEPARATOR: &'static str = "!";

/// The properties of a sheet, as far as the commands read them.
#[derive(Debug, Clone, PartialEq, Eq)]
pub struct SheetProperties {
    pub title: Option<String>,
    pub sheet_id: Option<i32>,
}

/// The mathematical value of a `SheetProperties`.
pub struct SheetPropertiesView {
    pub title: Option<Seq<char>>,
    pub sheet_id: Option<i32>,
}

impl View for SheetProperties {
    type V = SheetPropertiesView;

    open spec fn view(&self) -> SheetPropertiesView {
        SheetPropertiesView { title: self.title.deep_view(), sheet_id: self.sheet_id }
    }
}

impl DeepView for SheetProperties {
    type V = SheetPropertiesView;

    open spec fn deep_view(&self) -> SheetPropertiesView {
        self@
    }
}

/// One sheet of a spreadsheet.
#[derive(Debug, Clone, PartialEq, Eq)]
pub struct Sheet {
    pub properties: Option<SheetProperties>,
}

/// The mathematical value of a `Sheet`.
pub struct SheetView {
    pub properties: Option<SheetPropertiesView>,
}

impl SheetView {
    /// Whether the sheet's title is exactly `name`. A sheet without
    /// properties or without a title has none.
    pub open spec fn has_title(self, name: Seq<char>) -> bool {
        self.properties matches Some(properties) && properties.title == Some(name)
    }

    /// The numeric id that the sheet's properties give, if any.
    pub open spec fn id(self) -> Option<i32> {
        match self.properties {
            Some(properties) => properties.sheet_id,
            None => None,
        }
    }
}

impl View for Sheet {
    type V = SheetView;

    open spec fn view(&self) -> SheetView {
        SheetView { properties: self.properties.deep_view() }
    }
}

impl DeepView for Sheet {
    type V = SheetView;

    open spec fn deep_view(&self) -> SheetView {
        self@
    }
}

/// The metadata of a spreadsheet, as far as the commands read it.
#[derive(Debug, Clone, PartialEq, Eq)]
pub struct Spreadsheet {
    /// The sheets, in the order of the tabs; the service may leave the field out.
    pub sheets: Option<Vec<Sheet>>,
}

/// The mathematical value of a `Spreadsheet`.
pub struct SpreadsheetView {
    pub sheets: Option<Seq<SheetView>>,
}

impl View for Spreadsheet {
    type V = SpreadsheetView;

    open spec fn view(&self) -> SpreadsheetView {
        SpreadsheetView { sheets: self.sheets.deep_view() }
    }
}

/// The value of one cell.
#[derive(Debug, Clone, PartialEq, Eq)]
pub enum CellValue {
    /// A text.
    Text(String),
    /// A number, a truth value, or anything else that is no text.
    Other,
}

/// The mathematical value of a `CellValue`.
pub enum CellView {
    Text(Seq<char>),
    Other,
}

impl CellView {
    /// What a table shows for the cell: its text, and nothing for a value
    /// that is no text.
    pub open spec fn shown(self) -> Seq<char> {
        match self {
            CellView::Text(text) => text,
            CellView::Other => Seq::empty(),
        }
    }
}

impl View for CellValue {
    type V = CellView;

    open spec fn view(&self) -> CellView {
        match *self {
            CellValue::Text(text) => CellView::Text(text@),
            CellValue::Other => CellView::Other,
        }
    }
}

impl DeepView for CellValue {
    type V = CellView;

    open spec fn deep_view(&self) -> CellView {
        self@
    }
}

/// The values of a range: its rows, top to bottom, each with its cells, left
/// to right. Rows may differ in length; none is padded.
#[derive(Debug, Clone, PartialEq, Eq)]
pub struct ValueRange {
    /// Absent where the range holds no data.
    pub values: Option<Vec<Vec<CellValue>>>,
}

/// The mathematical value of a `ValueRange`.
pub struct ValueRangeView {
    pub values: Option<Seq<Seq<CellView>>>,
}

impl View for ValueRange {
    type V = ValueRangeView;

    open spec fn view(&self) -> ValueRangeView {
        ValueRangeView { values: self.values.deep_view() }
    }
}

/// Whether the sheet at `i` is the first of `sheets` whose title is `name`.
pub open spec fn is_first_titled(sheets: Seq<SheetView>, name: Seq<char>, i: int) -> bool {
    &&& 0 <= i < sheets.len()
    &&& sheets[i].has_title(name)
    &&& forall|j: int| 0 <= j < i ==> !(#[trigger] sheets[j]).has_title(name)
}

/// The id of the first of `sheets` whose title is `name`; `None` where no
/// sheet has that title, or where that sheet has no id.
pub open spec fn sheet_id_in(sheets: Seq<SheetView>, name: Seq<char>) -> Option<i32>
    decreases sheets.len(),
{
    if sheets.len() == 0 {
        None
    } else if sheets[0].has_title(name) {
        sheets[0].id()
    } else {
        sheet_id_in(sheets.drop_first(), name)
    }
}

impl SpreadsheetView {
    /// The sheets: none where the field is absent.
    pub open spec fn sheet_list(self) -> Seq<SheetView> {
        match self.sheets {
            Some(sheets) => sheets,
            None => Seq::empty(),
        }
    }

    /// The id of the first sheet whose title is `name`.
    pub open spec fn sheet_id(self, name: Seq<char>) -> Option<i32> {
        sheet_id_in(self.sheet_list(), name)
    }
}

/// `sheet_id_in` is the id of the first sheet with the title, and nothing
/// where no sheet has the title.
pub proof fn lemma_sheet_id_in(sheets: Seq<SheetView>, name: Seq<char>)
    ensures
        forall|i: int| is_first_titled(sheets, name, i) ==> sheet_id_in(sheets, name) == sheets[i].id(),
        (forall|i: int| 0 <= i < sheets.len() ==> !(#[trigger] sheets[i]).has_title(name))
            ==> sheet_id_in(sheets, name) is None,
    decreases sheets.len(),
{
    if sheets.len() > 0 {
        let rest = sheets.drop_first();
        lemma_sheet_id_in(rest, name);
        if sheets[0].has_title(name) {
            assert forall|i: int| is_first_titled(sheets, name, i) implies i == 0 by {}
        } else {
            assert forall|i: int| is_first_titled(sheets, name, i) implies sheet_id_in(
                sheets,
                name,
            ) == sheets[i].id() by {
                assert forall|j: int| 0 <= j < i - 1 implies !(#[trigger] rest[j]).has_title(
                    name,
                ) by {}
                assert(is_first_titled(rest, name, i - 1));
            }
            if forall|i: int| 0 <= i < sheets.len() ==> !(#[trigger] sheets[i]).has_title(name) {
                assert forall|i: int| 0 <= i < rest.len() implies !(#[trigger] rest[i]).has_title(
                    name,
                ) by {}
            }
        }
    }
}

/// Resolves a sheet's title to its numeric id: the id of the first sheet
/// whose title is exactly `sheet_name`, upper and lower case told apart.
/// `None` says that there is no such sheet, or that it carries no id; a
/// spreadsheet without sheets has none.
pub fn get_sheet_id(spreadsheet: &Spreadsheet, sheet_name: &str) -> (found: Option<i32>)
    ensures
        found == spreadsheet@.sheet_id(sheet_name@),
        forall|i: int|
            is_first_titled(spreadsheet@.sheet_list(), sheet_name@, i) ==> found
                == spreadsheet@.sheet_list()[i].id(),
        (forall|i: int|
            0 <= i < spreadsheet@.sheet_list().len() ==> !(
            #[trigger] spreadsheet@.sheet_list()[i]).has_title(sheet_name@)) ==> found is None,
{
    proof {
        lemma_sheet_id_in(spreadsheet@.sheet_list(), sheet_name@);
    }
    let wanted = String::from_str(sheet_name);
    match &spreadsheet.sheets {
        None => None,
        Some(sheets) => {
            let ghost all = spreadsheet@.sheet_list();
            let mut i: usize = 0;
            assert(all.skip(0) =~= all);
            while i < sheets.len()
                invariant
                    i <= sheets.len(),
                    wanted@ == sheet_name@,
                    all == sheets.deep_view(),
                    all == spreadsheet@.sheet_list(),
                    sheet_id_in(all, sheet_name@) == sheet_id_in(
                        all.skip(i as int),
                        sheet_name@,
                    ),
                decreases sheets.len() - i,
            {
                let ghost here = all.skip(i as int);
                assert(here.drop_first() =~= all.skip(i + 1));
                match &sheets[i].properties {
                    Some(properties) => {
                        match &properties.title {
                            Some(title) => {
                                if *title == wanted {
                                    proof {
                                        lemma_sheet_id_in(all, sheet_name@);
                                    }
                                    return properties.sheet_id;
                                }
                            },
                            None => {},
                        }
                    },
                    None => {},
                }
                i = i + 1;
            }
            None
        },
    }
}

/// The address of the cells `range` in the sheet titled `sheet_name`.
pub open spec fn range_address(sheet_name: Seq<char>, range: Seq<char>) -> Seq<char> {
    sheet_name + RANGE_SEPARATOR@ + range
}

/// Writes the address of the cells `range` in the sheet titled `sheet_name`.
pub fn full_range(sheet_name: &str, range: &str) -> (address: String)
    ensures
        address@ == range_address(sheet_name@, range@),
{
    let mut address = String::from_str(sheet_name);
    address.append(RANGE_SEPARATOR);
    address.append(range);
    address
}

/// A request for the values of a range.
#[derive(Debug, Clone, PartialEq, Eq)]
pub struct ValuesRequest {
    pub spreadsheet_id: String,
    /// The address of the range: the sheet's title, `!`, and the cells.
    pub range: String,
}

/// The mathematical value of a `ValuesRequest`.
pub struct ValuesRequestView {
    pub spreadsheet_id: Seq<char>,
    pub range: Seq<char>,
}

impl View for ValuesRequest {
    type V = ValuesRequestView;

    open spec fn view(&self) -> ValuesRequestView {
        ValuesRequestView { spreadsheet_id: self.spreadsheet_id@, range: self.range@ }
    }
}

/// What is to be read: which cells of which sheet of which spreadsheet.
#[derive(Debug, Clone, PartialEq, Eq)]
pub struct SheetRead {
    pub spreadsheet_id: String,
    pub sheet_name: String,
    pub range: String,
}

/// The mathematical value of a `SheetRead`.
pub struct SheetReadView {
    pub spreadsheet_id: Seq<char>,
    pub sheet_name: Seq<char>,
    pub range: Seq<char>,
}

impl View for SheetRead {
    type V = SheetReadView;

    open spec fn view(&self) -> SheetReadView {
        SheetReadView {
            spreadsheet_id: self.spreadsheet_id@,
            sheet_name: self.sheet_name@,
            range: self.range@,
        }
    }
}

/// The service's answer to the request for a spreadsheet's metadata, as a
/// mathematical value.
pub open spec fn spreadsheet_response_view(response: Result<Spreadsheet, String>) -> Result<
    SpreadsheetView,
    Seq<char>,
> {
    match response {
        Ok(spreadsheet) => Ok(spreadsheet@),
        Err(reason) => Err(reason@),
    }
}

/// The service's answer to the request for a range's values, as a
/// mathematical value.
pub open spec fn values_response_view(response: Result<ValueRange, String>) -> Result<
    ValueRangeView,
    Seq<char>,
> {
    match response {
        Ok(values) => Ok(values@),
        Err(reason) => Err(reason@),
    }
}

/// A request or a failure, as a mathematical value.
pub open spec fn request_view(request: Result<ValuesRequest, GsheetError>) -> Result<
    ValuesRequestView,
    ErrorView,
> {
    match request {
        Ok(request) => Ok(request@),
        Err(error) => Err(error@),
    }
}

/// Rows or a failure, as a mathematical value.
pub open spec fn rows_view(rows: Result<Option<Vec<Vec<CellValue>>>, GsheetError>) -> Result<
    Option<Seq<Seq<CellView>>>,
    ErrorView,
> {
    match rows {
        Ok(rows) => Ok(rows.deep_view()),
        Err(error) => Err(error@),
    }
}

impl SheetReadView {
    /// The read of `range` in the sheet `sheet_name` of a spreadsheet, with
    /// `Sheet1` and `A1:R100` where none is given.
    pub open spec fn new(
        spreadsheet_id: Seq<char>,
        sheet_name: Option<Seq<char>>,
        range: Option<Seq<char>>,
    ) -> SheetReadView {
        SheetReadView {
            spreadsheet_id,
            sheet_name: match sheet_name {
                Some(name) => name,
                None => DEFAULT_SHEET_NAME@,
            },
            range: match range {
                Some(range) => range,
                None => DEFAULT_RANGE@,
            },
        }
    }

    /// What follows the answer to the request for the spreadsheet's metadata.
    /// The values are asked for only where the sheet is found: a failed
    /// request is a failure of access, and a spreadsheet without a sheet of
    /// that title with an id ends the read with `SheetNotFound`.
    pub open spec fn after_spreadsheet(
        self,
        response: Result<SpreadsheetView, Seq<char>>,
    ) -> Result<ValuesRequestView, ErrorView> {
        match response {
            Err(reason) => Err(ErrorView::SheetAccessFailed { reason }),
            Ok(spreadsheet) => match spreadsheet.sheet_id(self.sheet_name) {
                Some(_) => Ok(
                    ValuesRequestView {
                        spreadsheet_id: self.spreadsheet_id,
                        range: range_address(self.sheet_name, self.range),
                    },
                ),
                None => Err(ErrorView::SheetNotFound { sheet_name: self.sheet_name }),
            },
        }
    }
}

/// What follows the answer to the request for the values: the rows, or
/// nothing where the range holds no data, which is no failure.
pub open spec fn after_values(response: Result<ValueRangeView, Seq<char>>) -> Result<
    Option<Seq<Seq<CellView>>>,
    ErrorView,
> {
    match response {
        Err(reason) => Err(ErrorView::SheetAccessFailed { reason }),
        Ok(values) => Ok(values.values),
    }
}

impl SheetRead {
    /// Says what to read; a sheet or a range that is not given is the default.
    /// The first request is for the metadata of the spreadsheet.
    pub fn new(spreadsheet_id: &str, sheet_name: Option<&str>, range: Option<&str>) -> (read:
        SheetRead)
        ensures
            read@ == SheetReadView::new(
                spreadsheet_id@,
                match sheet_name {
                    Some(name) => Some(name@),
                    None => None,
                },
                match range {
                    Some(range) => Some(range@),
                    None => None,
                },
            ),
    {
        SheetRead {
            spreadsheet_id: String::from_str(spreadsheet_id),
            sheet_name: match sheet_name {
                Some(name) => String::from_str(name),
                None => String::from_str(DEFAULT_SHEET_NAME),
            },
            range: match range {
                Some(range) => String::from_str(range),
                None => String::from_str(DEFAULT_RANGE),
            },
        }
    }

    /// Takes the answer to the request for the metadata, and gives the
    /// request for the values, or the reason why there is none.
    pub fn on_spreadsheet(&self, response: Result<Spreadsheet, String>) -> (request: Result<
        ValuesRequest,
        GsheetError,
    >)
        ensures
            request_view(request) == self@.after_spreadsheet(spreadsheet_response_view(response)),
    {
        match response {
            Err(reason) => Err(GsheetError::SheetAccessFailed { reason }),
            Ok(spreadsheet) => match get_sheet_id(&spreadsheet, self.sheet_name.as_str()) {
                Some(_) => Ok(
                    ValuesRequest {
                        spreadsheet_id: self.spreadsheet_id.clone(),
                        range: full_range(self.sheet_name.as_str(), self.range.as_str()),
                    },
                ),
                None => Err(GsheetError::SheetNotFound { sheet_name: self.sheet_name.clone() }),
            },
        }
    }
}

/// The values of a range are asked for exactly where its sheet was found:
/// a request follows if and only if the metadata came and holds, under the
/// title asked for, a sheet with an id. A spreadsheet that came without
/// such a sheet ends the read with `SheetNotFound`, which names the title.
pub proof fn lemma_values_asked_only_for_found_sheet(
    read: SheetReadView,
    response: Result<SpreadsheetView, Seq<char>>,
)
    ensures
        read.after_spreadsheet(response) is Ok <==> (response matches Ok(spreadsheet)
            && spreadsheet.sheet_id(read.sheet_name) is Some),
        (response matches Ok(spreadsheet) && spreadsheet.sheet_id(read.sheet_name) is None)
            ==> read.after_spreadsheet(response) == Err::<ValuesRequestView, ErrorView>(
            ErrorView::SheetNotFound { sheet_name: read.sheet_name },
        ),
{
}

/// Takes the answer to the request for the values.
pub fn on_values(response: Result<ValueRange, String>) -> (rows: Result<
    Option<Vec<Vec<CellValue>>>,
    GsheetError,
>)
    ensures
        rows_view(rows) == after_values(values_response_view(response)),
{
    match response {
        Err(reason) => Err(GsheetError::SheetAccessFailed { reason }),
        Ok(values) => Ok(values.values),
    }
}

} // verus!
