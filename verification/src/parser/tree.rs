//! The module files of a generated catalog.

use crate::parser::wrappers::{ModuleName, StructName};
use crate::text::{owned, signed_decimal, signed_text};
use vstd::prelude::*;

verus! {

/// A generated source file of one card, skill or encounter: the module it
/// stands in, the struct it declares, and the display name of what it
/// defines.
pub struct GeneratedItem {
    pub module: ModuleName,
    pub structure: StructName,
    pub name: String,
}

/// The line that declares the module of an item and re-exports its struct.
pub open spec fn export_line(item: GeneratedItem) -> Seq<char> {
    "pub mod "@ + item.module.0@ + "; pub use "@ + item.module.0@ + "::"@ + item.structure.0@
        + ";\n"@
}

/// The lines that declare the modules of the first `n` items.
pub open spec fn export_lines(items: Seq<GeneratedItem>, n: int) -> Seq<char>
    decreases n,
{
    if n <= 0 {
        Seq::empty()
    } else {
        export_lines(items, n - 1) + export_line(items[n - 1])
    }
}

/// The line that adds the card of an item to a catalog.
pub open spec fn register_line(item: GeneratedItem) -> Seq<char> {
    "    catalog.register("@ + item.module.0@ + "::"@ + item.structure.0@ + "::new());\n"@
}

/// The lines that add the cards of the first `n` items to a catalog.
pub open spec fn register_lines(items: Seq<GeneratedItem>, n: int) -> Seq<char>
    decreases n,
{
    if n <= 0 {
        Seq::empty()
    } else {
        register_lines(items, n - 1) + register_line(items[n - 1])
    }
}

/// The module file of a list of skills or of the encounters of a day: a
/// mark that the file is generated, then one line for each item.
pub open spec fn module_source(items: Seq<GeneratedItem>) -> Seq<char> {
    "// @generated\n"@ + export_lines(items, items.len() as int)
}

/// The module file of the cards: the lines of the items, then a function
/// that builds the catalog of all cards.
pub open spec fn cards_module_source(items: Seq<GeneratedItem>) -> Seq<char> {
    module_source(items)
        + "pub fn catalog() -> simulator::catalog::Catalog {\n    let mut catalog = simulator::catalog::Catalog::new();\n"@
        + register_lines(items, items.len() as int) + "    catalog\n}\n"@
}

/// Writes the lines that declare the modules of a list of items.
pub fn write_export_lines(items: &Vec<GeneratedItem>) -> (text: String)
    ensures
        text@ == export_lines(items@, items@.len() as int),
{
    let mut text = String::new();
    let mut i: usize = 0;
    while i < items.len()
        invariant
            i <= items@.len(),
            text@ == export_lines(items@, i as int),
        decreases items@.len() - i,
    {
        text.append("pub mod ");
        text.append(items[i].module.0.as_str());
        text.append("; pub use ");
        text.append(items[i].module.0.as_str());
        text.append("::");
        text.append(items[i].structure.0.as_str());
        text.append(";\n");
        assert(text@ =~= export_lines(items@, i as int + 1));
        i = i + 1;
    }
    text
}

/// Writes the module file of a list of skills or of the encounters of a day.
pub fn write_module(items: &Vec<GeneratedItem>) -> (text: String)
    ensures
        text@ == module_source(items@),
{
    owned("// @generated\n").concat(write_export_lines(items).as_str())
}

/// Writes the module file of the cards.
pub fn write_cards_module(items: &Vec<GeneratedItem>) -> (text: String)
    ensures
        text@ == cards_module_source(items@),
{
    let mut lines = String::new();
    let mut i: usize = 0;
    while i < items.len()
        invariant
            i <= items@.len(),
            lines@ == register_lines(items@, i as int),
        decreases items@.len() - i,
    {
        lines.append("    catalog.register(");
        lines.append(items[i].module.0.as_str());
        lines.append("::");
        lines.append(items[i].structure.0.as_str());
        lines.append("::new());\n");
        assert(lines@ =~= register_lines(items@, i as int + 1));
        i = i + 1;
    }
    write_module(items).concat(
        "pub fn catalog() -> simulator::catalog::Catalog {\n    let mut catalog = simulator::catalog::Catalog::new();\n",
    ).concat(lines.as_str()).concat("    catalog\n}\n")
}

/// The name of the module of a day of encounters: `day_` and the number of
/// the day, or `day_event` for the encounters without a day.
pub open spec fn day_module_text(day: Option<i64>) -> Seq<char> {
    match day {
        Some(number) => "day_"@ + signed_text(number as int),
        None => "day_event"@,
    }
}

/// Writes the name of the module of a day of encounters.
pub fn day_module_name(day: Option<i64>) -> (name: String)
    ensures
        name@ == day_module_text(day),
{
    match day {
        Some(number) => owned("day_").concat(signed_decimal(number as i128).as_str()),
        None => owned("day_event"),
    }
}

/// The generated item of a card.
pub fn card_item(name: &str) -> (item: GeneratedItem)
    ensures
        item.name@ == name@,
        item.module.0@ == "card_"@ + crate::text::snake_case(name@),
        item.structure.0@ == "Card"@ + crate::text::pascal_case(name@),
{
    GeneratedItem {
        module: ModuleName::card(name),
        structure: StructName::card(name),
        name: owned(name),
    }
}

/// The generated item of a skill.
pub fn skill_item(name: &str) -> (item: GeneratedItem)
    ensures
        item.name@ == name@,
        item.module.0@ == "skill_"@ + crate::text::snake_case(name@),
        item.structure.0@ == "Skill"@ + crate::text::pascal_case(name@),
{
    GeneratedItem {
        module: ModuleName::skill(name),
        structure: StructName::skill(name),
        name: owned(name),
    }
}

/// The generated item of an encounter.
pub fn encounter_item(name: &str) -> (item: GeneratedItem)
    ensures
        item.name@ == name@,
        item.module.0@ == "encounter_"@ + crate::text::snake_case(name@),
        item.structure.0@ == "Encounter"@ + crate::text::pascal_case(name@),
{
    GeneratedItem {
        module: ModuleName::encounter(name),
        structure: StructName::encounter(name),
        name: owned(name),
    }
}

} // verus!
