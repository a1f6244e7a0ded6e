//! Plain-text rendering of engine values: decimal numbers, padded
//! columns, and the fixed stat lines the host prints for a structure.

use vstd::prelude::*;

use crate::component::ComponentName;
use crate::kinds::{Resource, RESOURCE_COUNT};
use crate::structures::{
    battery_of, energy_of, group_of, has_resource_store, resource_store_of, BatteryTrait,
    EnergyTrait, ResourceStorageTrait, Structure, StructureBlueprint, StructureGroup,
};

verus! {

/// The decimal digit character for one digit value.
pub open spec fn digit_char(d: int) -> char {
    if d == 0 {
        '0'
    } else if d == 1 {
        '1'
    } else if d == 2 {
        '2'
    } else if d == 3 {
        '3'
    } else if d == 4 {
        '4'
    } else if d == 5 {
        '5'
    } else if d == 6 {
        '6'
    } else if d == 7 {
        '7'
    } else if d == 8 {
        '8'
    } else {
        '9'
    }
}

/// The decimal rendering of a number, most significant digit first.
pub open spec fn dec_rep(n: int) -> Seq<char>
    decreases n,
{
    if n < 10 {
        seq![digit_char(n)]
    } else {
        dec_rep(n / 10).push(digit_char(n % 10))
    }
}

/// `n` spaces.
pub open spec fn sp(n: int) -> Seq<char> {
    Seq::new(n as nat, |i: int| ' ')
}

/// Text padded on the left with spaces up to `w`.
pub open spec fn pad_left_spec(s: Seq<char>, w: int) -> Seq<char> {
    if s.len() >= w {
        s
    } else {
        sp(w - s.len()) + s
    }
}

/// Text padded on the right with spaces up to `w`.
pub open spec fn pad_right_spec(s: Seq<char>, w: int) -> Seq<char> {
    if s.len() >= w {
        s
    } else {
        s + sp(w - s.len())
    }
}

/// The display name of a resource kind.
pub open spec fn resource_name_spec(r: Resource) -> Seq<char> {
    match r {
        Resource::Iron => "Iron"@,
        Resource::Aluminum => "Aluminum"@,
        Resource::Carbon => "Carbon"@,
        Resource::Silica => "Silica"@,
        Resource::Uranium => "Uranium"@,
        Resource::Water => "Water"@,
    }
}

/// The display name of a resource kind, padded to the ten-column label
/// width.
pub open spec fn resource_label_spec(r: Resource) -> Seq<char> {
    match r {
        Resource::Iron => "Iron      "@,
        Resource::Aluminum => "Aluminum  "@,
        Resource::Carbon => "Carbon    "@,
        Resource::Silica => "Silica    "@,
        Resource::Uranium => "Uranium   "@,
        Resource::Water => "Water     "@,
    }
}

/// The one-character string for one digit value.
fn digit_str(d: u64) -> (r: &'static str)
    requires
        d < 10,
    ensures
        r@ == seq![digit_char(d as int)],
{
    proof {
        reveal_strlit("0");
        reveal_strlit("1");
        reveal_strlit("2");
        reveal_strlit("3");
        reveal_strlit("4");
        reveal_strlit("5");
        reveal_strlit("6");
        reveal_strlit("7");
        reveal_strlit("8");
        reveal_strlit("9");
    }
    let r = if d == 0 {
        "0"
    } else if d == 1 {
        "1"
    } else if d == 2 {
        "2"
    } else if d == 3 {
        "3"
    } else if d == 4 {
        "4"
    } else if d == 5 {
        "5"
    } else if d == 6 {
        "6"
    } else if d == 7 {
        "7"
    } else if d == 8 {
        "8"
    } else {
        "9"
    };
    proof {
        assert(r@ =~= seq![digit_char(d as int)]);
    }
    r
}

/// Render a number in decimal.
pub fn u64_to_string(n: u64) -> (s: String)
    ensures
        s@ == dec_rep(n as int),
    decreases n,
{
    if n < 10 {
        let s = String::from_str(digit_str(n));
        proof {
            assert(s@ =~= dec_rep(n as int));
        }
        s
    } else {
        let mut s = u64_to_string(n / 10);
        s.append(digit_str(n % 10));
        proof {
            assert(s@ =~= dec_rep(n as int));
        }
        s
    }
}

/// Ten to the given power.
pub open spec fn pow10(d: nat) -> int
    decreases d,
{
    if d == 0 {
        1
    } else {
        10 * pow10((d - 1) as nat)
    }
}

proof fn lemma_dec_rep_len_bound(n: int, d: nat)
    requires
        0 <= n,
        1 <= d,
        n < pow10(d),
    ensures
        1 <= dec_rep(n).len() <= d,
    decreases d,
{
    if n >= 10 {
        assert(pow10(d) == 10 * pow10((d - 1) as nat));
        assert(n / 10 < pow10((d - 1) as nat)) by (nonlinear_arith)
            requires
                n < 10 * pow10((d - 1) as nat),
                n >= 10,
        {}
        assert(pow10((d - 1) as nat) > 1);
        lemma_dec_rep_len_bound(n / 10, (d - 1) as nat);
    }
}

/// The decimal rendering of a machine word takes at most twenty
/// characters.
proof fn lemma_dec_rep_len(n: int)
    requires
        0 <= n <= u64::MAX,
    ensures
        1 <= dec_rep(n).len() <= 20,
{
    reveal_with_fuel(pow10, 21);
    assert(pow10(20) == 100000000000000000000int);
    lemma_dec_rep_len_bound(n, 20);
}

/// How many characters the decimal rendering takes.
fn dec_len(n: u64) -> (l: usize)
    ensures
        l == dec_rep(n as int).len(),
        l <= 20,
    decreases n,
{
    proof {
        lemma_dec_rep_len(n as int);
    }
    if n < 10 {
        1
    } else {
        let r = dec_len(n / 10);
        r + 1
    }
}

/// A run of spaces.
fn spaces(n: usize) -> (s: String)
    ensures
        s@ == sp(n as int),
{
    proof {
        reveal_strlit(" ");
    }
    let mut s = String::new();
    proof {
        assert(s@ =~= sp(0));
    }
    let mut i: usize = 0;
    while i < n
        invariant
            i <= n,
            s@ == sp(i as int),
        decreases n - i,
    {
        s.append(" ");
        proof {
            reveal_strlit(" ");
            assert(s@ =~= sp(i + 1));
        }
        i = i + 1;
    }
    s
}

/// Render a number right-aligned in a column of the given width.
pub fn pad_num_left(n: u64, width: usize) -> (r: String)
    ensures
        r@ == pad_left_spec(dec_rep(n as int), width as int),
    {
    let l = dec_len(n);
    if l >= width {
        u64_to_string(n)
    } else {
        let mut r = spaces(width - l);
        let digits = u64_to_string(n);
        r.append(digits.as_str());
        r
    }
}

/// Render a number left-aligned in a column of the given width.
pub fn pad_num_right(n: u64, width: usize) -> (r: String)
    ensures
        r@ == pad_right_spec(dec_rep(n as int), width as int),
{
    let l = dec_len(n);
    let mut r = u64_to_string(n);
    if l < width {
        let fill = spaces(width - l);
        r.append(fill.as_str());
    }
    r
}

/// The display name of a resource kind.
pub fn resource_name(r: &Resource) -> (s: &'static str)
    ensures
        s@ == resource_name_spec(*r),
{
    match r {
        Resource::Iron => "Iron",
        Resource::Aluminum => "Aluminum",
        Resource::Carbon => "Carbon",
        Resource::Silica => "Silica",
        Resource::Uranium => "Uranium",
        Resource::Water => "Water",
    }
}

fn resource_label(r: &Resource) -> (s: &'static str)
    ensures
        s@ == resource_label_spec(*r),
{
    match r {
        Resource::Iron => "Iron      ",
        Resource::Aluminum => "Aluminum  ",
        Resource::Carbon => "Carbon    ",
        Resource::Silica => "Silica    ",
        Resource::Uranium => "Uranium   ",
        Resource::Water => "Water     ",
    }
}

/// The stat line naming a mine's assigned resource.
pub fn format_resource(resource_group: &Resource) -> (r: String)
    ensures
        r@ == "Resource: : "@ + resource_name_spec(*resource_group),
{
    let mut r = String::from_str("Resource: : ");
    r.append(resource_name(resource_group));
    r
}

/// The stat line for one kind in a structure's resource store: the kind,
/// the held amount right-aligned, and the capacity left-aligned.
pub fn format_resource_capacity(blueprint: &StructureBlueprint, resource_group: &Resource) -> (r:
    String)
    requires
        has_resource_store(blueprint@),
        resource_store_of(blueprint@).wf(RESOURCE_COUNT as int),
        resource_store_of(blueprint@).known[resource_group.idx_spec()],
    ensures
        r@ == resource_label_spec(*resource_group) + " ("@ + pad_left_spec(
            dec_rep(resource_store_of(blueprint@).amt[resource_group.idx_spec()] as int),
            8,
        ) + " / "@ + pad_right_spec(
            dec_rep(resource_store_of(blueprint@).cap[resource_group.idx_spec()] as int),
            8,
        ) + ")"@,
{
    let capacity = ResourceStorageTrait::capacity(blueprint, resource_group);
    let amount = ResourceStorageTrait::resource(blueprint, resource_group);

    let mut r = String::from_str(resource_label(resource_group));
    r.append(" (");
    let amount_text = pad_num_left(amount, 8);
    r.append(amount_text.as_str());
    r.append(" / ");
    let capacity_text = pad_num_right(capacity, 8);
    r.append(capacity_text.as_str());
    r.append(")");
    r
}

/// The stat line for a structure's energy demand and supply.
pub fn format_energy_io(blueprint: &StructureBlueprint) -> (r: String)
    requires
        blueprint@.contains_key(ComponentName::EnergyComponent),
    ensures
        r@ == "Energy I/O ("@ + pad_left_spec(
            dec_rep(energy_of(blueprint@).energy_in as int),
            8,
        ) + " / "@ + pad_right_spec(dec_rep(energy_of(blueprint@).energy_out as int), 8) + ")"@,
{
    let energy_in = blueprint.energy_in();
    let energy_out = blueprint.energy_out();

    let mut r = String::from_str("Energy I/O (");
    let in_text = pad_num_left(energy_in, 8);
    r.append(in_text.as_str());
    r.append(" / ");
    let out_text = pad_num_right(energy_out, 8);
    r.append(out_text.as_str());
    r.append(")");
    r
}

/// The stat line for a structure's battery: stored right-aligned,
/// capacity left-aligned.
pub fn format_battery(blueprint: &StructureBlueprint) -> (r: String)
    requires
        blueprint@.contains_key(ComponentName::BatteryComponent),
    ensures
        r@ == "Battery    ("@ + pad_left_spec(
            dec_rep(battery_of(blueprint@).stored as int),
            8,
        ) + " / "@ + pad_right_spec(dec_rep(battery_of(blueprint@).capacity as int), 8) + ")"@,
{
    let stored = BatteryTrait::stored(blueprint);
    let capacity = BatteryTrait::capacity(blueprint);

    let mut r = String::from_str("Battery    (");
    let stored_text = pad_num_left(stored, 8);
    r.append(stored_text.as_str());
    r.append(" / ");
    let capacity_text = pad_num_right(capacity, 8);
    r.append(capacity_text.as_str());
    r.append(")");
    r
}

/// The map glyph for a structure kind.
pub open spec fn structure_symbol_spec(g: StructureGroup) -> char {
    match g {
        StructureGroup::Base => 'B',
        StructureGroup::Power => 'P',
        StructureGroup::Mine => 'M',
        StructureGroup::Storage => 'S',
        StructureGroup::Factory => 'F',
        StructureGroup::Refinery => 'R',
    }
}

/// The map glyph for a placed structure.
pub fn get_structure_symbol(structure: &Structure) -> (c: char)
    ensures
        c == structure_symbol_spec(group_of(structure@)),
{
    match structure {
        Structure::Base { .. } => 'B',
        Structure::PowerPlant { .. } => 'P',
        Structure::Mine { .. } => 'M',
        Structure::Storage { .. } => 'S',
        Structure::Factory { .. } => 'F',
        Structure::Refinery { .. } => 'R',
    }
}

/// The block glyphs the map view is drawn with.
#[derive(Clone, Copy, Debug, PartialEq, Eq, Structural)]
pub enum BlockType {
    Full,
    Dark,
    Medium,
    Light,
    Selected,
    Resource,
}

impl BlockType {
    /// The character a block is drawn as.
    pub open spec fn symbol_spec(self) -> char {
        match self {
            BlockType::Full => '#',
            BlockType::Dark => '%',
            BlockType::Medium => '+',
            BlockType::Light => '.',
            BlockType::Selected => '*',
            BlockType::Resource => 'R',
        }
    }

    /// The character a block is drawn as.
    pub fn symbol(self) -> (c: char)
        ensures
            c == self.symbol_spec(),
    {
        match self {
            BlockType::Full => '#',
            BlockType::Dark => '%',
            BlockType::Medium => '+',
            BlockType::Light => '.',
            BlockType::Selected => '*',
            BlockType::Resource => 'R',
        }
    }
}

} // verus!
