//! The features that an application manifest can be composed of, each with
//! the XML that declares it.

use crate::text::{chars_of, push_text, text_of};
use vstd::prelude::*;

verus! {

/// Composable application manifest features.
#[derive(Debug, Clone, Copy, PartialEq, Eq, Structural)]
pub enum Feature {
    /// Sets the process DPI awareness mode.
    DpiAware(DpiMode),
    /// Use Common Control DLL (ComCtl32.dll) version 6.
    ControlsV6,
}

/// DPI awareness mode.
#[derive(Debug, Clone, Copy, PartialEq, Eq, Structural)]
pub enum DpiMode {
    Unaware,
    System,
    PerMonitor,
    PerMonitorV2,
}

impl DeepView for Feature {
    type V = Feature;

    open spec fn deep_view(&self) -> Feature {
        *self
    }
}

/// The XML that comes before the value of `dpiAware`.
pub open spec fn dpi_head() -> Seq<char> {
    "<asmv3:application xmlns:asmv3=\"urn:schemas-microsoft-com:asm.v3\">\n    <asmv3:windowsSettings>\n        <dpiAware xmlns=\"http://schemas.microsoft.com/SMI/2005/WindowsSettings\">"@
}

/// The XML between the value of `dpiAware` and that of `dpiAwareness`.
pub open spec fn dpi_mid() -> Seq<char> {
    "</dpiAware>\n        <dpiAwareness xmlns=\"http://schemas.microsoft.com/SMI/2016/WindowsSettings\">"@
}

/// The XML that comes after the value of `dpiAwareness`.
pub open spec fn dpi_tail() -> Seq<char> {
    "</dpiAwareness>\n    </asmv3:windowsSettings>\n</asmv3:application>"@
}

/// The XML that opts in to version 6 of the common controls.
pub open spec fn controls_v6_xml() -> Seq<char> {
    "<dependency>\n    <dependentAssembly>\n        <assemblyIdentity type=\"win32\" name=\"Microsoft.Windows.Common-Controls\" version=\"6.0.0.0\" processorArchitecture=\"*\" publicKeyToken=\"6595b64144ccf1df\" language=\"*\"/>\n    </dependentAssembly>\n</dependency>"@
}

impl DpiMode {
    /// The value of `dpiAware`, which older versions of Windows read.
    pub open spec fn aware(self) -> Seq<char> {
        match self {
            DpiMode::Unaware => "false"@,
            DpiMode::System => "true"@,
            DpiMode::PerMonitor => "true/pm"@,
            DpiMode::PerMonitorV2 => "true"@,
        }
    }

    /// The value of `dpiAwareness`.
    pub open spec fn awareness(self) -> Seq<char> {
        match self {
            DpiMode::Unaware => "unaware"@,
            DpiMode::System => "system"@,
            DpiMode::PerMonitor => "PerMonitor"@,
            DpiMode::PerMonitorV2 => "PerMonitorV2"@,
        }
    }

    /// The XML that declares the mode: the settings element with both
    /// values in their places.
    pub open spec fn xml_text(self) -> Seq<char> {
        dpi_head() + self.aware() + dpi_mid() + self.awareness() + dpi_tail()
    }

    /// The XML that declares the mode.
    pub fn xml(&self) -> (r: String)
        ensures
            r@ == self.xml_text(),
    {
        let (aware, awareness) = match self {
            DpiMode::Unaware => ("false", "unaware"),
            DpiMode::System => ("true", "system"),
            DpiMode::PerMonitor => ("true/pm", "PerMonitor"),
            DpiMode::PerMonitorV2 => ("true", "PerMonitorV2"),
        };
        let mut xml = String::new();
        push_text(
            &mut xml,
            "<asmv3:application xmlns:asmv3=\"urn:schemas-microsoft-com:asm.v3\">\n    <asmv3:windowsSettings>\n        <dpiAware xmlns=\"http://schemas.microsoft.com/SMI/2005/WindowsSettings\">{aware}</dpiAware>\n        <dpiAwareness xmlns=\"http://schemas.microsoft.com/SMI/2016/WindowsSettings\">{awareness}</dpiAwareness>\n    </asmv3:windowsSettings>\n</asmv3:application>",
        );
        proof {
            lemma_template();
            lemma_pieces_have_no_brace();
            lemma_values_have_no_brace(*self);
            reveal_strlit("{aware}");
            reveal_strlit("{awareness}");
            assert(xml@ =~= dpi_head() + "{aware}"@ + (dpi_mid() + "{awareness}"@ + dpi_tail()));
            lemma_found_behind(dpi_head(), "{aware}"@, dpi_mid() + "{awareness}"@ + dpi_tail());
        }
        replace(&mut xml, "{aware}", aware);
        proof {
            let front = dpi_head() + self.aware() + dpi_mid();
            assert(xml@ =~= front + "{awareness}"@ + dpi_tail());
            lemma_found_behind(front, "{awareness}"@, dpi_tail());
        }
        replace(&mut xml, "{awareness}", awareness);
        proof {
            assert(xml@ =~= self.xml_text());
        }
        xml
    }
}

impl Feature {
    /// The XML that declares the feature.
    pub open spec fn xml_text(self) -> Seq<char> {
        match self {
            Feature::DpiAware(mode) => mode.xml_text(),
            Feature::ControlsV6 => controls_v6_xml(),
        }
    }

    /// The XML that declares the feature.
    pub fn xml(&self) -> (r: String)
        ensures
            r@ == self.xml_text(),
    {
        match self {
            Feature::DpiAware(mode) => mode.xml(),
            Feature::ControlsV6 => {
                let mut xml = String::new();
                push_text(
                    &mut xml,
                    "<dependency>\n    <dependentAssembly>\n        <assemblyIdentity type=\"win32\" name=\"Microsoft.Windows.Common-Controls\" version=\"6.0.0.0\" processorArchitecture=\"*\" publicKeyToken=\"6595b64144ccf1df\" language=\"*\"/>\n    </dependentAssembly>\n</dependency>",
                );
                xml
            },
        }
    }
}

/// Whether `c` occurs nowhere in `s`.
pub open spec fn free_of(s: Seq<char>, c: char) -> bool {
    forall|i: int| 0 <= i < s.len() ==> s[i] != c
}

/// Whether `key` stands in `s` at position `i`.
pub open spec fn occurs_at(s: Seq<char>, key: Seq<char>, i: int) -> bool {
    0 <= i && i + key.len() <= s.len() && s.subrange(i, i + key.len()) == key
}

/// The first position at or behind `from` at which `key` stands in `s`, or
/// -1 if there is none.
pub open spec fn find(s: Seq<char>, key: Seq<char>, from: int) -> int
    decreases s.len() - from,
{
    if from < 0 || from + key.len() > s.len() {
        -1
    } else if s.subrange(from, from + key.len()) == key {
        from
    } else if from == s.len() {
        -1
    } else {
        find(s, key, from + 1)
    }
}

/// `s` with `value` in place of the first occurrence of `key`; `s` itself
/// where `key` does not occur.
pub open spec fn replaced(s: Seq<char>, key: Seq<char>, value: Seq<char>) -> Seq<char> {
    let i = find(s, key, 0);
    if i < 0 {
        s
    } else {
        s.subrange(0, i) + value + s.subrange(i + key.len(), s.len() as int)
    }
}

/// Where `find` reports a position, `key` stands there and at no searched
/// position before it; where it reports none, `key` stands at no searched
/// position.
pub proof fn lemma_find(s: Seq<char>, key: Seq<char>, from: int)
    requires
        0 <= from,
    ensures
        find(s, key, from) >= 0 ==> from <= find(s, key, from) && occurs_at(
            s,
            key,
            find(s, key, from),
        ),
        find(s, key, from) < 0 ==> find(s, key, from) == -1,
        forall|j: int|
            from <= j && (j < find(s, key, from) || find(s, key, from) < 0) ==> !occurs_at(
                s,
                key,
                j,
            ),
    decreases s.len() - from,
{
    if from + key.len() > s.len() {
    } else if s.subrange(from, from + key.len()) == key {
    } else if from == s.len() {
        assert(s.subrange(from, from + key.len()) =~= key);
    } else {
        lemma_find(s, key, from + 1);
    }
}

/// A key that follows text without the key's first character is first found
/// right behind that text.
pub proof fn lemma_found_behind(front: Seq<char>, key: Seq<char>, back: Seq<char>)
    requires
        key.len() > 0,
        free_of(front, key[0]),
    ensures
        find(front + key + back, key, 0) == front.len(),
        forall|value: Seq<char>|
            #[trigger] replaced(front + key + back, key, value) == front + value + back,
{
    let s = front + key + back;
    lemma_find(s, key, 0);
    assert(s.subrange(front.len() as int, (front.len() + key.len()) as int) =~= key);
    assert(occurs_at(s, key, front.len() as int));
    let i = find(s, key, 0);
    if i < front.len() {
        assert(i >= 0);
        assert(s.subrange(i, i + key.len())[0] == s[i]);
        assert(s[i] == front[i]);
    }
    assert(s.subrange(0, front.len() as int) =~= front);
    assert(s.subrange((front.len() + key.len()) as int, s.len() as int) =~= back);
}

/// The template is the three pieces with a placeholder between each two.
proof fn lemma_template()
    ensures
        "<asmv3:application xmlns:asmv3=\"urn:schemas-microsoft-com:asm.v3\">\n    <asmv3:windowsSettings>\n        <dpiAware xmlns=\"http://schemas.microsoft.com/SMI/2005/WindowsSettings\">{aware}</dpiAware>\n        <dpiAwareness xmlns=\"http://schemas.microsoft.com/SMI/2016/WindowsSettings\">{awareness}</dpiAwareness>\n    </asmv3:windowsSettings>\n</asmv3:application>"@
            == dpi_head() + "{aware}"@ + dpi_mid() + "{awareness}"@ + dpi_tail(),
{
    reveal_strlit(
        "<asmv3:application xmlns:asmv3=\"urn:schemas-microsoft-com:asm.v3\">\n    <asmv3:windowsSettings>\n        <dpiAware xmlns=\"http://schemas.microsoft.com/SMI/2005/WindowsSettings\">{aware}</dpiAware>\n        <dpiAwareness xmlns=\"http://schemas.microsoft.com/SMI/2016/WindowsSettings\">{awareness}</dpiAwareness>\n    </asmv3:windowsSettings>\n</asmv3:application>",
    );
    reveal_strlit(
        "<asmv3:application xmlns:asmv3=\"urn:schemas-microsoft-com:asm.v3\">\n    <asmv3:windowsSettings>\n        <dpiAware xmlns=\"http://schemas.microsoft.com/SMI/2005/WindowsSettings\">",
    );
    reveal_strlit(
        "</dpiAware>\n        <dpiAwareness xmlns=\"http://schemas.microsoft.com/SMI/2016/WindowsSettings\">",
    );
    reveal_strlit("</dpiAwareness>\n    </asmv3:windowsSettings>\n</asmv3:application>");
    reveal_strlit("{aware}");
    reveal_strlit("{awareness}");
    assert("<asmv3:application xmlns:asmv3=\"urn:schemas-microsoft-com:asm.v3\">\n    <asmv3:windowsSettings>\n        <dpiAware xmlns=\"http://schemas.microsoft.com/SMI/2005/WindowsSettings\">{aware}</dpiAware>\n        <dpiAwareness xmlns=\"http://schemas.microsoft.com/SMI/2016/WindowsSettings\">{awareness}</dpiAwareness>\n    </asmv3:windowsSettings>\n</asmv3:application>"@
        =~= dpi_head() + "{aware}"@ + dpi_mid() + "{awareness}"@ + dpi_tail());
}

proof fn lemma_pieces_have_no_brace()
    ensures
        free_of(dpi_head(), '{'),
        free_of(dpi_head(), '}'),
        free_of(dpi_mid(), '{'),
        free_of(dpi_mid(), '}'),
        free_of(dpi_tail(), '{'),
        free_of(dpi_tail(), '}'),
{
    reveal_strlit(
        "<asmv3:application xmlns:asmv3=\"urn:schemas-microsoft-com:asm.v3\">\n    <asmv3:windowsSettings>\n        <dpiAware xmlns=\"http://schemas.microsoft.com/SMI/2005/WindowsSettings\">",
    );
    reveal_strlit(
        "</dpiAware>\n        <dpiAwareness xmlns=\"http://schemas.microsoft.com/SMI/2016/WindowsSettings\">",
    );
    reveal_strlit("</dpiAwareness>\n    </asmv3:windowsSettings>\n</asmv3:application>");
}

proof fn lemma_values_have_no_brace(mode: DpiMode)
    ensures
        free_of(mode.aware(), '{'),
        free_of(mode.aware(), '}'),
        free_of(mode.awareness(), '{'),
        free_of(mode.awareness(), '}'),
{
    reveal_strlit("false");
    reveal_strlit("true");
    reveal_strlit("true/pm");
    reveal_strlit("unaware");
    reveal_strlit("system");
    reveal_strlit("PerMonitor");
    reveal_strlit("PerMonitorV2");
}

/// The XML of every mode holds the mode's two values, each in its element,
/// and no brace: no placeholder of the template is left in it.
pub proof fn lemma_dpi_xml_filled(mode: DpiMode)
    ensures
        occurs_at(mode.xml_text(), mode.aware(), dpi_head().len() as int),
        occurs_at(
            mode.xml_text(),
            mode.awareness(),
            (dpi_head().len() + mode.aware().len() + dpi_mid().len()) as int,
        ),
        free_of(mode.xml_text(), '{'),
        free_of(mode.xml_text(), '}'),
        forall|i: int| !occurs_at(mode.xml_text(), "{aware}"@, i),
        forall|i: int| !occurs_at(mode.xml_text(), "{awareness}"@, i),
{
    lemma_pieces_have_no_brace();
    lemma_values_have_no_brace(mode);
    let xml = mode.xml_text();
    let a = dpi_head().len() as int;
    let b = a + mode.aware().len() + dpi_mid().len();
    assert(xml.subrange(a, a + mode.aware().len()) =~= mode.aware());
    assert(xml.subrange(b, b + mode.awareness().len()) =~= mode.awareness());
    reveal_strlit("{aware}");
    reveal_strlit("{awareness}");
    assert forall|i: int| !occurs_at(xml, "{aware}"@, i) by {
        if occurs_at(xml, "{aware}"@, i) {
            assert(xml.subrange(i, i + "{aware}"@.len())[0] == xml[i]);
        }
    }
    assert forall|i: int| !occurs_at(xml, "{awareness}"@, i) by {
        if occurs_at(xml, "{awareness}"@, i) {
            assert(xml.subrange(i, i + "{awareness}"@.len())[0] == xml[i]);
        }
    }
}

/// Puts `value` in place of the first occurrence of `key`.
fn replace(string: &mut String, key: &str, value: &str)
    requires
        find(old(string)@, key@, 0) >= 0,
    ensures
        final(string)@ == replaced(old(string)@, key@, value@),
{
    let chars = chars_of(string.as_str());
    let wanted = chars_of(key);
    proof {
        lemma_find(chars@, wanted@, 0);
    }
    let mut index: usize = 0;
    loop
        invariant
            chars@ == old(string)@,
            wanted@ == key@,
            find(chars@, wanted@, 0) >= 0,
            index <= find(chars@, wanted@, 0),
            find(chars@, wanted@, index as int) == find(chars@, wanted@, 0),
            index + wanted.len() <= chars.len(),
        ensures
            index == find(chars@, wanted@, 0),
            index + wanted.len() <= chars.len(),
        decreases chars.len() - index,
    {
        let mut k: usize = 0;
        while k < wanted.len() && chars[index + k] == wanted[k]
            invariant
                k <= wanted.len(),
                index + wanted.len() <= chars.len(),
                forall|j: int| 0 <= j < k ==> chars@[index + j] == wanted@[j],
            decreases wanted.len() - k,
        {
            k = k + 1;
        }
        if k == wanted.len() {
            proof {
                assert(chars@.subrange(index as int, index + wanted.len()) =~= wanted@);
            }
            break ;
        }
        proof {
            assert(chars@.subrange(index as int, index + wanted.len())[k as int] == chars@[index
                + k]);
            lemma_find(chars@, wanted@, index + 1);
        }
        index = index + 1;
    }
    let mut out = text_of(&chars, 0, index);
    proof {
        assert(chars@.subrange(0, index as int) == old(string)@.subrange(0, index as int));
    }
    push_text(&mut out, value);
    let back = text_of(&chars, index + wanted.len(), chars.len());
    push_text(&mut out, back.as_str());
    *string = out;
}

} // verus!
