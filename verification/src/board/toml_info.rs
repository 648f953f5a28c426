//! The information a user enters for a new board, and the text of the
//! board manifest (TOML) generated from it.

use vstd::prelude::*;

use crate::text::{replace_all, replace_str, int_decimal, i32_to_string, strs};
use super::BoardType;
use super::pinout::{InterfaceType, InterfaceDirection};

verus! {

/// The pinout information entered for a new board.
#[derive(Debug)]
pub struct PinoutTomlInfo {
    pub pins: Vec<String>,
    pub iface_type: InterfaceType,
    pub direction: InterfaceDirection,
}

/// The information entered for a new board.
#[derive(Debug)]
pub struct BoardTomlInfo {
    pub name: String,
    pub manufacturer: String,
    pub board_type: BoardType,
    pub standard: String,
    pub cpu: String,
    pub ram: i32,
    pub flash: i32,
    pub required_crates: Vec<String>,
    pub related_crates: Vec<String>,
    pub bsp: String,
    pub pinouts: Vec<PinoutTomlInfo>,
}

/// A text between double quotes.
pub open spec fn quoted(s: Seq<char>) -> Seq<char> {
    "\""@ + s + "\""@
}

/// The items of a TOML array of strings: each item quoted, separated by `, `.
pub open spec fn quoted_list(items: Seq<String>) -> Seq<char>
    decreases items.len(),
{
    if items.len() == 0 {
        Seq::empty()
    } else if items.len() == 1 {
        quoted(items[0]@)
    } else {
        quoted_list(items.drop_last()) + ", "@ + quoted(items.last()@)
    }
}

/// Appends the items of a TOML array of strings.
fn append_quoted_list(out: &mut String, items: &Vec<String>)
    ensures
        final(out)@ == old(out)@ + quoted_list(items@),
{
    let ghost start = out@;
    let mut i: usize = 0;
    while i < items.len()
        invariant
            i <= items.len(),
            out@ == start + quoted_list(items@.take(i as int)),
        decreases items.len() - i,
    {
        let ghost before = out@;
        if i > 0 {
            out.append(", ");
        }
        out.append("\"");
        out.append(items[i].as_str());
        out.append("\"");
        proof {
            let t = items@.take(i + 1);
            assert(t.drop_last() =~= items@.take(i as int));
            assert(t.last() == items@[i as int]);
            if i == 0 {
                assert(items@.take(i as int) =~= Seq::<String>::empty());
                assert(out@ =~= start + quoted(items@[0]@));
            } else {
                assert(out@ =~= start + (quoted_list(items@.take(i as int)) + ", "@ + quoted(
                    items@[i as int]@,
                )));
            }
        }
        i = i + 1;
    }
    assert(items@.take(i as int) =~= items@);
}

/// The lists of the new-board form (required crates, related crates, pins)
/// always show one entry at least: an empty list gets an empty entry.
pub fn ensure_entry(v: &mut Vec<String>)
    ensures
        old(v)@.len() == 0 ==> strs(final(v)@) == seq![Seq::<char>::empty()],
        old(v)@.len() > 0 ==> final(v)@ == old(v)@,
        final(v)@.len() >= 1,
{
    if v.len() == 0 {
        v.push(String::new());
        assert(strs(v@) =~= seq![Seq::<char>::empty()]);
    }
}

/// Adds an empty entry at the end of a list of the new-board form.
pub fn add_entry(v: &mut Vec<String>)
    ensures
        strs(final(v)@) == strs(old(v)@).push(Seq::empty()),
{
    let ghost before = v@;
    v.push(String::new());
    assert(strs(v@) =~= strs(before).push(Seq::empty()));
}

/// Deletes entry `n` of a list of the new-board form, unless it is the only
/// one. Tells whether it was deleted.
pub fn delete_entry(v: &mut Vec<String>, n: usize) -> (deleted: bool)
    requires
        n < old(v)@.len(),
    ensures
        deleted == (old(v)@.len() != 1),
        deleted ==> final(v)@ == old(v)@.remove(n as int),
        !deleted ==> final(v)@ == old(v)@,
        final(v)@.len() > 0,
{
    if v.len() == 1 {
        return false;
    }
    let _ = v.remove(n);
    true
}

/// The standard a new board gets in the form: peripheral boards and discrete
/// parts adhere to no standard ("None"); a main board keeps the one chosen.
pub fn standard_for(board_type: BoardType, chosen: &str) -> (r: String)
    ensures
        board_type != BoardType::Main ==> r@ == "None"@,
        board_type == BoardType::Main ==> r@ == chosen@,
{
    match board_type {
        BoardType::Main => String::from_str(chosen),
        _ => String::from_str("None"),
    }
}

impl PinoutTomlInfo {
    /// The `pins = [...]` line of this pinout.
    pub open spec fn pins_text(self) -> Seq<char> {
        "pins = ["@ + quoted_list(self.pins@) + "]\n"@
    }

    /// The `interface = {...}` line of this pinout, followed by a blank line.
    pub open spec fn interface_text(self) -> Seq<char> {
        "interface = { iface_type = \""@ + self.iface_type.label() + "\", direction = \""@
            + self.direction.label() + "\" }\n\n"@
    }

    /// Converts the pins to their TOML line.
    pub fn get_pins(&self) -> (r: String)
        ensures
            r@ == self.pins_text(),
    {
        let mut s = String::from_str("pins = [");
        append_quoted_list(&mut s, &self.pins);
        s.append("]\n");
        s
    }

    /// Converts the interface to its TOML line.
    pub fn get_interface(&self) -> (r: String)
        ensures
            r@ == self.interface_text(),
    {
        let mut s = String::from_str("interface = { iface_type = \"");
        s.append(self.iface_type.to_string().as_str());
        s.append("\", direction = \"");
        s.append(self.direction.to_string().as_str());
        s.append("\" }\n\n");
        s
    }
}

impl Default for PinoutTomlInfo {
    fn default() -> (r: Self)
        ensures
            r.pins@.len() == 0,
            r.iface_type == InterfaceType::NONE,
            r.direction == InterfaceDirection::Unknown,
    {
        PinoutTomlInfo {
            pins: Vec::new(),
            iface_type: InterfaceType::NONE,
            direction: InterfaceDirection::Unknown,
        }
    }
}

/// The `[[pinout]]` sections of a list of pinouts, in order.
pub open spec fn pinouts_text(p: Seq<PinoutTomlInfo>) -> Seq<char>
    decreases p.len(),
{
    if p.len() == 0 {
        Seq::empty()
    } else {
        pinouts_text(p.drop_last()) + "[[pinout]]\n"@ + p.last().pins_text()
            + p.last().interface_text()
    }
}

/// All pin names of a list of pinouts, pinout after pinout.
pub open spec fn all_pins(p: Seq<PinoutTomlInfo>) -> Seq<String>
    decreases p.len(),
{
    if p.len() == 0 {
        Seq::empty()
    } else {
        all_pins(p.drop_last()) + p.last().pins@
    }
}

impl BoardTomlInfo {
    pub open spec fn name_text(self) -> Seq<char> {
        "name = \""@ + self.name@ + "\"\n"@
    }

    pub open spec fn manufacturer_text(self) -> Seq<char> {
        "manufacturer = \""@ + self.manufacturer@ + "\"\n"@
    }

    pub open spec fn board_type_text(self) -> Seq<char> {
        "board_type = \""@ + self.board_type.label() + "\"\n"@
    }

    pub open spec fn standard_text(self) -> Seq<char> {
        "standard = \""@ + self.standard@ + "\"\n"@
    }

    pub open spec fn cpu_text(self) -> Seq<char> {
        "cpu = \""@ + self.cpu@ + "\"\n"@
    }

    pub open spec fn ram_text(self) -> Seq<char> {
        "ram = "@ + int_decimal(self.ram as int) + "\n"@
    }

    pub open spec fn flash_text(self) -> Seq<char> {
        "flash = "@ + int_decimal(self.flash as int) + "\n"@
    }

    pub open spec fn required_crates_text(self) -> Seq<char> {
        "required_crates = ["@ + quoted_list(self.required_crates@) + "]\n"@
    }

    pub open spec fn related_crates_text(self) -> Seq<char> {
        "related_crates = ["@ + quoted_list(self.related_crates@) + "]\n\n"@
    }

    /// The BSP crate of a new board is named after the board, with its
    /// spaces turned into dashes.
    pub open spec fn bsp_text(self) -> Seq<char> {
        "bsp = \"iron-coder-"@ + replace_all(self.name@, " "@, "-"@) + "-bsp\"\n\n"@
    }

    /// The whole manifest: discrete parts have no cpu, ram or flash lines.
    pub open spec fn toml_text(self) -> Seq<char> {
        if self.board_type != BoardType::Discrete {
            self.name_text() + self.manufacturer_text() + self.board_type_text()
                + self.standard_text() + self.cpu_text() + self.ram_text() + self.flash_text()
                + self.required_crates_text() + self.related_crates_text() + self.bsp_text()
                + pinouts_text(self.pinouts@)
        } else {
            self.name_text() + self.manufacturer_text() + self.board_type_text()
                + self.standard_text() + self.required_crates_text()
                + self.related_crates_text() + self.bsp_text() + pinouts_text(self.pinouts@)
        }
    }

    /// Converts the name to its TOML line.
    pub fn get_name(&self) -> (r: String)
        ensures
            r@ == self.name_text(),
    {
        let mut s = String::from_str("name = \"");
        s.append(self.name.as_str());
        s.append("\"\n");
        s
    }

    /// Converts the manufacturer to its TOML line.
    pub fn get_manufacturer(&self) -> (r: String)
        ensures
            r@ == self.manufacturer_text(),
    {
        let mut s = String::from_str("manufacturer = \"");
        s.append(self.manufacturer.as_str());
        s.append("\"\n");
        s
    }

    /// Converts the board type to its TOML line.
    pub fn get_board_type(&self) -> (r: String)
        ensures
            r@ == self.board_type_text(),
    {
        let mut s = String::from_str("board_type = \"");
        s.append(self.board_type.to_string().as_str());
        s.append("\"\n");
        s
    }

    /// Converts the standard to its TOML line.
    pub fn get_standard(&self) -> (r: String)
        ensures
            r@ == self.standard_text(),
    {
        let mut s = String::from_str("standard = \"");
        s.append(self.standard.as_str());
        s.append("\"\n");
        s
    }

    /// Converts the cpu to its TOML line.
    pub fn get_cpu(&self) -> (r: String)
        ensures
            r@ == self.cpu_text(),
    {
        let mut s = String::from_str("cpu = \"");
        s.append(self.cpu.as_str());
        s.append("\"\n");
        s
    }

    /// Converts the RAM size to its TOML line.
    pub fn get_ram(&self) -> (r: String)
        ensures
            r@ == self.ram_text(),
    {
        let mut s = String::from_str("ram = ");
        s.append(i32_to_string(self.ram).as_str());
        s.append("\n");
        s
    }

    /// Converts the flash size to its TOML line.
    pub fn get_flash(&self) -> (r: String)
        ensures
            r@ == self.flash_text(),
    {
        let mut s = String::from_str("flash = ");
        s.append(i32_to_string(self.flash).as_str());
        s.append("\n");
        s
    }

    /// Converts the required crates to their TOML line.
    pub fn get_required_crates(&self) -> (r: String)
        ensures
            r@ == self.required_crates_text(),
    {
        let mut s = String::from_str("required_crates = [");
        append_quoted_list(&mut s, &self.required_crates);
        s.append("]\n");
        s
    }

    /// Converts the related crates to their TOML line, followed by a blank line.
    pub fn get_related_crates(&self) -> (r: String)
        ensures
            r@ == self.related_crates_text(),
    {
        let mut s = String::from_str("related_crates = [");
        append_quoted_list(&mut s, &self.related_crates);
        s.append("]\n\n");
        s
    }

    /// The BSP line of the manifest.
    pub fn get_bsp(&self) -> (r: String)
        ensures
            r@ == self.bsp_text(),
    {
        let mut s = String::from_str("bsp = \"iron-coder-");
        proof {
            reveal_strlit(" ");
        }
        s.append(replace_str(self.name.as_str(), " ", "-").as_str());
        s.append("-bsp\"\n\n");
        s
    }

    /// The `[[pinout]]` sections of the manifest.
    pub fn get_pinouts(&self) -> (r: String)
        ensures
            r@ == pinouts_text(self.pinouts@),
    {
        let mut s = String::new();
        let mut i: usize = 0;
        while i < self.pinouts.len()
            invariant
                i <= self.pinouts.len(),
                s@ == pinouts_text(self.pinouts@.take(i as int)),
            decreases self.pinouts.len() - i,
        {
            s.append("[[pinout]]\n");
            s.append(self.pinouts[i].get_pins().as_str());
            s.append(self.pinouts[i].get_interface().as_str());
            proof {
                let t = self.pinouts@.take(i + 1);
                assert(t.drop_last() =~= self.pinouts@.take(i as int));
                assert(t.last() == self.pinouts@[i as int]);
            }
            i = i + 1;
        }
        assert(self.pinouts@.take(i as int) =~= self.pinouts@);
        s
    }

    /// The names of all pins of all pinouts, in order.
    pub fn get_all_pin_names(&self) -> (r: Vec<String>)
        ensures
            r@ == all_pins(self.pinouts@),
    {
        let mut names: Vec<String> = Vec::new();
        let mut i: usize = 0;
        while i < self.pinouts.len()
            invariant
                i <= self.pinouts.len(),
                names@ == all_pins(self.pinouts@.take(i as int)),
            decreases self.pinouts.len() - i,
        {
            let ghost before = names@;
            let pins = &self.pinouts[i].pins;
            let mut k: usize = 0;
            while k < pins.len()
                invariant
                    k <= pins.len(),
                    names@ == before + pins@.take(k as int),
                decreases pins.len() - k,
            {
                names.push(pins[k].clone());
                k = k + 1;
                assert(names@ =~= before + pins@.take(k as int));
            }
            proof {
                let t = self.pinouts@.take(i + 1);
                assert(t.drop_last() =~= self.pinouts@.take(i as int));
                assert(t.last() == self.pinouts@[i as int]);
                assert(pins@.take(k as int) =~= pins@);
            }
            i = i + 1;
        }
        assert(self.pinouts@.take(i as int) =~= self.pinouts@);
        names
    }

    /// The whole board manifest.
    pub fn generate_toml_string(&self) -> (r: String)
        ensures
            r@ == self.toml_text(),
    {
        let mut s = self.get_name();
        s.append(self.get_manufacturer().as_str());
        s.append(self.get_board_type().as_str());
        s.append(self.get_standard().as_str());
        if self.board_type != BoardType::Discrete {
            s.append(self.get_cpu().as_str());
            s.append(self.get_ram().as_str());
            s.append(self.get_flash().as_str());
        }
        s.append(self.get_required_crates().as_str());
        s.append(self.get_related_crates().as_str());
        s.append(self.get_bsp().as_str());
        s.append(self.get_pinouts().as_str());
        s
    }

    /// Removing the files of an abandoned board is not done yet: this does
    /// nothing.
    pub fn cleanup(&self, file_path: &str) {
    }
}

impl BoardTomlInfo {
    /// What the general part of the new-board form does to the entered
    /// information in every frame, besides the user's own edits: each crate
    /// list shows one entry at least (an empty list gets an empty entry), and
    /// a board other than a main board adheres to no standard ("None").
    /// Everything else is kept.
    pub fn general_form_frame(&mut self)
        ensures
            final(self).required_crates@.len() >= 1,
            final(self).related_crates@.len() >= 1,
            old(self).required_crates@.len() > 0 ==> final(self).required_crates@
                == old(self).required_crates@,
            old(self).required_crates@.len() == 0 ==> strs(final(self).required_crates@)
                == seq![Seq::<char>::empty()],
            old(self).related_crates@.len() > 0 ==> final(self).related_crates@
                == old(self).related_crates@,
            old(self).related_crates@.len() == 0 ==> strs(final(self).related_crates@)
                == seq![Seq::<char>::empty()],
            old(self).board_type != BoardType::Main ==> final(self).standard@ == "None"@,
            old(self).board_type == BoardType::Main ==> final(self).standard == old(
                self,
            ).standard,
            final(self).name == old(self).name,
            final(self).manufacturer == old(self).manufacturer,
            final(self).board_type == old(self).board_type,
            final(self).cpu == old(self).cpu,
            final(self).ram == old(self).ram,
            final(self).flash == old(self).flash,
            final(self).bsp == old(self).bsp,
            final(self).pinouts == old(self).pinouts,
    {
        if self.board_type != BoardType::Main {
            self.standard = standard_for(self.board_type, self.standard.as_str());
        }
        ensure_entry(&mut self.required_crates);
        ensure_entry(&mut self.related_crates);
    }
}

impl Default for BoardTomlInfo {
    fn default() -> (r: Self)
        ensures
            r.name@.len() == 0,
            r.manufacturer@.len() == 0,
            r.board_type == BoardType::Main,
            r.standard@.len() == 0,
            r.cpu@.len() == 0,
            r.ram == 0,
            r.flash == 0,
            r.required_crates@.len() == 0,
            r.related_crates@.len() == 0,
            r.bsp@.len() == 0,
            r.pinouts@.len() == 0,
    {
        BoardTomlInfo {
            name: String::new(),
            manufacturer: String::new(),
            board_type: BoardType::Main,
            standard: String::new(),
            cpu: String::new(),
            ram: 0,
            flash: 0,
            required_crates: Vec::new(),
            related_crates: Vec::new(),
            bsp: String::new(),
            pinouts: Vec::new(),
        }
    }
}

} // verus!
