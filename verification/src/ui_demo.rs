//! A three-level sample of grouped events: groups of events, events, and
//! the fields of each event.

use vstd::prelude::*;

use crate::numeric::{decimal, push_decimal};
use crate::text::{owned, push_str};

verus! {

/// One field of a sample event.
#[derive(Clone, Debug)]
pub struct Level3Data {
    pub name: String,
    pub value: String,
    pub details: String,
}

/// One sample event and its fields.
#[derive(Clone, Debug)]
pub struct Level2Data {
    pub name: String,
    pub summary: String,
    pub expanded: bool,
    pub level3_items: Vec<Level3Data>,
}

/// One group of sample events.
#[derive(Clone, Debug)]
pub struct Level1Data {
    pub name: String,
    pub count: usize,
    pub expanded: bool,
    pub level2_items: Vec<Level2Data>,
}

/// The mathematical content of a [`Level3Data`].
pub struct Level3View {
    pub name: Seq<char>,
    pub value: Seq<char>,
    pub details: Seq<char>,
}

/// The mathematical content of a [`Level2Data`].
pub struct Level2View {
    pub name: Seq<char>,
    pub summary: Seq<char>,
    pub expanded: bool,
    pub items: Seq<Level3View>,
}

/// The mathematical content of a [`Level1Data`].
pub struct Level1View {
    pub name: Seq<char>,
    pub count: usize,
    pub expanded: bool,
    pub items: Seq<Level2View>,
}

impl View for Level3Data {
    type V = Level3View;

    open spec fn view(&self) -> Level3View {
        Level3View { name: self.name@, value: self.value@, details: self.details@ }
    }
}

impl View for Level2Data {
    type V = Level2View;

    open spec fn view(&self) -> Level2View {
        Level2View {
            name: self.name@,
            summary: self.summary@,
            expanded: self.expanded,
            items: self.level3_items@.map_values(|d: Level3Data| d@),
        }
    }
}

impl View for Level1Data {
    type V = Level1View;

    open spec fn view(&self) -> Level1View {
        Level1View {
            name: self.name@,
            count: self.count,
            expanded: self.expanded,
            items: self.level2_items@.map_values(|d: Level2Data| d@),
        }
    }
}

/// The view of a list of groups.
pub open spec fn groups_view(v: Seq<Level1Data>) -> Seq<Level1View> {
    v.map_values(|d: Level1Data| d@)
}

/// The sample display state: the sample groups.
pub struct UiState {
    pub display_data: Vec<Level1Data>,
}

impl Default for UiState {
    /// The state that holds the sample groups.
    fn default() -> (r: Self)
        ensures
            groups_view(r.display_data@) == dummy_data(),
    {
        UiState { display_data: create_dummy_data() }
    }
}

/// The sample event groups.
pub open spec fn dummy_data() -> Seq<Level1View> {
    seq![
        Level1View {
            name: "Event Group 1 - SIGNON Events"@,
            count: 5,
            expanded: false,
            items: seq![
            Level2View {
                name: "22/04/2025 00:16:44 - SIGNON"@,
                summary: "Driver 12345 signed on"@,
                expanded: false,
                items: seq![
                    Level3View { name: "Driver ID"@, value: "12345"@, details: "Primary driver"@ },
                    Level3View { name: "Vehicle"@, value: "Bus 101"@, details: "Route assignment"@ },
                    Level3View { name: "Location"@, value: "Depot A"@, details: "Starting location"@ },
                ],
            },
            Level2View {
                name: "22/04/2025 08:30:15 - SIGNON"@,
                summary: "Driver 67890 signed on"@,
                expanded: false,
                items: seq![
                    Level3View { name: "Driver ID"@, value: "67890"@, details: "Relief driver"@ },
                    Level3View { name: "Vehicle"@, value: "Bus 205"@, details: "Backup vehicle"@ },
                ],
            },
            ],
        },
        Level1View {
            name: "Event Group 2 - CHECKLIST Events"@,
            count: 8,
            expanded: false,
            items: seq![
            Level2View {
                name: "22/04/2025 00:16:45 - CHECKLIST"@,
                summary: "Pre-trip inspection completed"@,
                expanded: false,
                items: seq![
                    Level3View { name: "Status"@, value: "OK"@, details: "All systems check passed"@ },
                    Level3View { name: "Checklist ID"@, value: "8022"@, details: "Standard pre-trip"@ },
                    Level3View { name: "Items Checked"@, value: "33"@, details: "All mandatory items"@ },
                ],
            },
            ],
        },
        Level1View {
            name: "Event Group 3 - ZONECHANGE Events"@,
            count: 12,
            expanded: false,
            items: seq![
            Level2View {
                name: "22/04/2025 00:16:46 - ZONECHANGE"@,
                summary: "Zone changed from 0 to 310"@,
                expanded: false,
                items: seq![
                    Level3View { name: "From Zone"@, value: "0"@, details: "Depot zone"@ },
                    Level3View { name: "To Zone"@, value: "310"@, details: "Service zone"@ },
                    Level3View { name: "Time"@, value: "00:16:46"@, details: "Automatic detection"@ },
                ],
            },
            ],
        },
    ]
}

fn sample_event_1() -> (r: Level2Data)
    ensures
        r@ == dummy_data()[0].items[0],
{
    let items = vec![
        Level3Data { name: owned("Driver ID"), value: owned("12345"), details: owned("Primary driver") },
        Level3Data { name: owned("Vehicle"), value: owned("Bus 101"), details: owned("Route assignment") },
        Level3Data { name: owned("Location"), value: owned("Depot A"), details: owned("Starting location") },
    ];
    let r = Level2Data {
        name: owned("22/04/2025 00:16:44 - SIGNON"),
        summary: owned("Driver 12345 signed on"),
        expanded: false,
        level3_items: items,
    };
    assert(r@.items =~= dummy_data()[0].items[0].items);
    r
}

fn sample_event_2() -> (r: Level2Data)
    ensures
        r@ == dummy_data()[0].items[1],
{
    let items = vec![
        Level3Data { name: owned("Driver ID"), value: owned("67890"), details: owned("Relief driver") },
        Level3Data { name: owned("Vehicle"), value: owned("Bus 205"), details: owned("Backup vehicle") },
    ];
    let r = Level2Data {
        name: owned("22/04/2025 08:30:15 - SIGNON"),
        summary: owned("Driver 67890 signed on"),
        expanded: false,
        level3_items: items,
    };
    assert(r@.items =~= dummy_data()[0].items[1].items);
    r
}

fn sample_group_1() -> (r: Level1Data)
    ensures
        r@ == dummy_data()[0],
{
    let items = vec![sample_event_1(), sample_event_2()];
    let r = Level1Data {
        name: owned("Event Group 1 - SIGNON Events"),
        count: 5,
        expanded: false,
        level2_items: items,
    };
    assert(r@.items =~= dummy_data()[0].items);
    r
}

fn sample_event_3() -> (r: Level2Data)
    ensures
        r@ == dummy_data()[1].items[0],
{
    let items = vec![
        Level3Data { name: owned("Status"), value: owned("OK"), details: owned("All systems check passed") },
        Level3Data { name: owned("Checklist ID"), value: owned("8022"), details: owned("Standard pre-trip") },
        Level3Data { name: owned("Items Checked"), value: owned("33"), details: owned("All mandatory items") },
    ];
    let r = Level2Data {
        name: owned("22/04/2025 00:16:45 - CHECKLIST"),
        summary: owned("Pre-trip inspection completed"),
        expanded: false,
        level3_items: items,
    };
    assert(r@.items =~= dummy_data()[1].items[0].items);
    r
}

fn sample_group_2() -> (r: Level1Data)
    ensures
        r@ == dummy_data()[1],
{
    let items = vec![sample_event_3()];
    let r = Level1Data {
        name: owned("Event Group 2 - CHECKLIST Events"),
        count: 8,
        expanded: false,
        level2_items: items,
    };
    assert(r@.items =~= dummy_data()[1].items);
    r
}

fn sample_event_4() -> (r: Level2Data)
    ensures
        r@ == dummy_data()[2].items[0],
{
    let items = vec![
        Level3Data { name: owned("From Zone"), value: owned("0"), details: owned("Depot zone") },
        Level3Data { name: owned("To Zone"), value: owned("310"), details: owned("Service zone") },
        Level3Data { name: owned("Time"), value: owned("00:16:46"), details: owned("Automatic detection") },
    ];
    let r = Level2Data {
        name: owned("22/04/2025 00:16:46 - ZONECHANGE"),
        summary: owned("Zone changed from 0 to 310"),
        expanded: false,
        level3_items: items,
    };
    assert(r@.items =~= dummy_data()[2].items[0].items);
    r
}

fn sample_group_3() -> (r: Level1Data)
    ensures
        r@ == dummy_data()[2],
{
    let items = vec![sample_event_4()];
    let r = Level1Data {
        name: owned("Event Group 3 - ZONECHANGE Events"),
        count: 12,
        expanded: false,
        level2_items: items,
    };
    assert(r@.items =~= dummy_data()[2].items);
    r
}

/// The sample event groups, see [`dummy_data`].
pub fn create_dummy_data() -> (r: Vec<Level1Data>)
    ensures
        groups_view(r@) == dummy_data(),
{
    let r = vec![sample_group_1(), sample_group_2(), sample_group_3()];
    assert(groups_view(r@) =~= dummy_data());
    r
}

/// The header of a group: its name and, in brackets, its event count.
pub fn group_header(item: &Level1Data) -> (r: String)
    ensures
        r@ == item.name@ + " ("@ + decimal(item.count as nat) + ")"@,
{
    let mut r = owned(item.name.as_str());
    push_str(&mut r, " (");
    push_decimal(&mut r, item.count as u64);
    push_str(&mut r, ")");
    r
}

/// The summary line of an event.
pub fn summary_line(item: &Level2Data) -> (r: String)
    ensures
        r@ == "Summary: "@ + item.summary@,
{
    let mut r = owned("Summary: ");
    push_str(&mut r, item.summary.as_str());
    r
}

/// The widget id of the field table of an event.
pub fn grid_id(item: &Level2Data) -> (r: String)
    ensures
        r@ == "grid_"@ + item.name@,
{
    let mut r = owned("grid_");
    push_str(&mut r, item.name.as_str());
    r
}

} // verus!
