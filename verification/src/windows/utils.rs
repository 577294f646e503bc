//! The names that the Windows back end shows for processes and endpoints, as
//! decided from what the Win32 property and process queries returned.
use vstd::prelude::*;

verus! {

/// What a process-name query came to.
pub enum ProcessLookup {
    /// The process could not be opened (it belongs to the system or is protected).
    NotOpened,
    /// The process was opened; its module name, when the query returned one.
    Opened(Option<String>),
}

/// The name shown for a process.
pub open spec fn process_display_text(lookup: ProcessLookup) -> Seq<char> {
    match lookup {
        ProcessLookup::NotOpened => "System/Protected"@,
        ProcessLookup::Opened(Some(name)) => name@,
        ProcessLookup::Opened(None) => "Unknown"@,
    }
}

/// The name shown for a process, from what the query came to.
pub fn process_display_name(lookup: ProcessLookup) -> (name: String)
    ensures
        name@ == process_display_text(lookup),
{
    match lookup {
        ProcessLookup::NotOpened => String::from_str("System/Protected"),
        ProcessLookup::Opened(Some(name)) => name,
        ProcessLookup::Opened(None) => String::from_str("Unknown"),
    }
}

/// How many UTF-16 units of a module-name buffer hold the name: what the query
/// reported, at most the buffer's size.
pub fn module_name_units(reported: u32, capacity: usize) -> (n: usize)
    ensures
        n == if (reported as int) < capacity {
            reported as int
        } else {
            capacity as int
        },
{
    if (reported as u64) < (capacity as u64) {
        reported as usize
    } else {
        capacity
    }
}

/// The kinds of property value that hold a text.
#[derive(Debug, Clone, Copy, PartialEq, Eq, Structural)]
pub enum VariantText {
    /// A `BSTR` (`VT_BSTR`, 8).
    Bstr,
    /// A narrow string (`VT_LPSTR`, 31).
    Narrow,
    /// Any other kind, which gives no text.
    NoText,
}

/// The kind of text that a property value of type `vt` holds.
pub fn variant_text_kind(vt: u16) -> (k: VariantText)
    ensures
        k == if vt == 8 {
            VariantText::Bstr
        } else if vt == 31 {
            VariantText::Narrow
        } else {
            VariantText::NoText
        },
{
    if vt == 8 {
        VariantText::Bstr
    } else if vt == 31 {
        VariantText::Narrow
    } else {
        VariantText::NoText
    }
}

/// The name shown for an endpoint: its friendly name, or `Default Device` when
/// the property could not be read or is empty.
pub open spec fn device_display_text(friendly_name: Option<String>) -> Seq<char> {
    match friendly_name {
        Some(n) => if n@.len() > 0 {
            n@
        } else {
            "Default Device"@
        },
        None => "Default Device"@,
    }
}

/// The name shown for an endpoint is never empty.
pub proof fn lemma_device_display_text()
    ensures
        forall|o: Option<String>| #[trigger] device_display_text(o).len() > 0,
{
    reveal_strlit("Default Device");
}

/// The name shown for an endpoint, from its friendly-name property.
pub fn device_display_name(friendly_name: Option<String>) -> (name: String)
    ensures
        name@ == device_display_text(friendly_name),
{
    match friendly_name {
        Some(n) => {
            if n.as_str().is_empty() {
                String::from_str("Default Device")
            } else {
                n
            }
        },
        None => String::from_str("Default Device"),
    }
}

} // verus!
