use crate::colors::{ratio_color, usage_color, ratio_color_of, usage_color_of, UsageColor};
use crate::models::{Memory, OSInfo, CPU};
use crate::scroll::{visible_range, window_end, window_start};
use crate::text::{decimal, fixed2, push_decimal, push_fixed2};
use vstd::prelude::*;

verus! {

/// One gigabyte, in bytes.
pub const BYTES_PER_GB: u64 = 1073741824;

/// `bytes` in hundredths of a gigabyte, rounded half up.
pub open spec fn gb_hundredths(bytes: nat) -> nat {
    (bytes * 100 + (BYTES_PER_GB / 2) as nat) / (BYTES_PER_GB as nat)
}

/// `used / total` in hundredths of a percent, rounded half up.
pub open spec fn percent_hundredths(used: nat, total: nat) -> nat
    recommends
        total > 0,
{
    ((used * 20000 + total) / (2 * total)) as nat
}

/// The label "(<used> GB / <total> GB)", two decimals each.
pub open spec fn memory_label_of(used: nat, total: nat) -> Seq<char> {
    seq!['('] + fixed2(gb_hundredths(used)) + " GB / "@ + fixed2(gb_hundredths(total))
        + " GB)"@
}

/// The gauge text "<percent>%" with two decimals, or "N/A" for a total of 0.
pub open spec fn percentage_label_of(used: nat, total: nat) -> Seq<char> {
    if total == 0 {
        "N/A"@
    } else {
        fixed2(percent_hundredths(used, total)) + "%"@
    }
}

/// The title of a core's block: "Core: <name>. <latest>%".
pub open spec fn core_title_of(cpu: CPU) -> Seq<char> {
    "Core: "@ + cpu.core@ + ". "@ + decimal(cpu.latest() as nat) + "%"@
}

/// The core list as shown: the cores, the row offset of the scroll and the
/// height of the viewport in rows.
pub struct CPUWidget<'a> {
    pub cpus: &'a Vec<CPU>,
    pub scroll_offset: usize,
    pub viewport_height: u16,
}

impl<'a> CPUWidget<'a> {
    pub fn new(cpus: &'a Vec<CPU>, scroll_offset: usize, viewport_height: u16) -> (r: Self)
        ensures
            r.cpus@ == cpus@,
            r.scroll_offset == scroll_offset,
            r.viewport_height == viewport_height,
    {
        CPUWidget { cpus, scroll_offset, viewport_height }
    }

    /// The range `[start, end)` of the cores in view.
    pub fn visible_range(&self) -> (r: (usize, usize))
        ensures
            r.0 == window_start(self.scroll_offset as nat, self.cpus@.len()),
            r.1 == window_end(
                self.scroll_offset as nat,
                self.viewport_height as nat,
                self.cpus@.len(),
            ),
            r.0 <= r.1 <= self.cpus@.len(),
            self.cpus@.len() > 0 ==> r.0 < self.cpus@.len(),
    {
        visible_range(self.scroll_offset, self.viewport_height, self.cpus.len())
    }

    /// The title of a core's block.
    pub fn core_title(cpu: &CPU) -> (r: String)
        ensures
            r@ == core_title_of(*cpu),
    {
        proof {
            reveal_strlit("Core: ");
            reveal_strlit(". ");
            reveal_strlit("%");
        }
        let mut s = String::from_str("Core: ");
        s.append(cpu.core.as_str());
        s.append(". ");
        push_decimal(&mut s, cpu.latest_usage() as u128);
        s.append("%");
        s
    }

    /// The colour of a core's block, from its most recent sample (green
    /// before any).
    pub fn core_color(cpu: &CPU) -> (r: UsageColor)
        ensures
            r == usage_color_of(cpu.latest() as nat),
    {
        usage_color(cpu.latest_usage())
    }
}

/// The memory section as shown.
pub struct MemoryWidget<'a> {
    pub memory: &'a Memory,
}

impl<'a> MemoryWidget<'a> {
    pub fn new(memory: &'a Memory) -> (r: Self)
        ensures
            *r.memory == *memory,
    {
        MemoryWidget { memory }
    }

    /// Swap is shown as a gauge only when some is allocated.
    pub fn swap_is_active(total: u64) -> (r: bool)
        ensures
            r == (total != 0),
    {
        total != 0
    }

    /// The gauge colour for `used` out of `total`.
    pub fn get_color(used: u64, total: u64) -> (r: UsageColor)
        ensures
            r == ratio_color_of(used as nat, total as nat),
    {
        ratio_color(used, total)
    }

    /// `used / total` in hundredths of a percent, `None` for a total of 0.
    pub fn percent(used: u64, total: u64) -> (r: Option<u128>)
        ensures
            total == 0 <==> r is None,
            total > 0 ==> r == Some(percent_hundredths(used as nat, total as nat) as u128),
    {
        if total == 0 {
            None
        } else {
            Some(((used as u128) * 20000 + (total as u128)) / (2 * (total as u128)))
        }
    }

    /// The gauge text for `used` out of `total`.
    pub fn get_percentage(used: u64, total: u64) -> (r: String)
        ensures
            r@ == percentage_label_of(used as nat, total as nat),
    {
        proof {
            reveal_strlit("N/A");
            reveal_strlit("%");
        }
        match MemoryWidget::percent(used, total) {
            None => String::from_str("N/A"),
            Some(h) => {
                let mut s = String::new();
                push_fixed2(&mut s, h);
                s.append("%");
                s
            },
        }
    }

    /// The label under a gauge: "(<used> GB / <total> GB)".
    pub fn memory_label(used: u64, total: u64) -> (r: String)
        ensures
            r@ == memory_label_of(used as nat, total as nat),
    {
        proof {
            reveal_strlit("(");
            reveal_strlit(" GB / ");
            reveal_strlit(" GB)");
        }
        let mut s = String::from_str("(");
        push_fixed2(&mut s, ((used as u128) * 100 + (BYTES_PER_GB / 2) as u128) / (BYTES_PER_GB as u128));
        s.append(" GB / ");
        push_fixed2(&mut s, ((total as u128) * 100 + (BYTES_PER_GB / 2) as u128) / (BYTES_PER_GB as u128));
        s.append(" GB)");
        s
    }
}

/// The host identity panel.
pub struct OsInfoWidget<'a> {
    pub os_info: &'a OSInfo,
}

impl<'a> OsInfoWidget<'a> {
    pub fn new(os_info: &'a OSInfo) -> (r: Self)
        ensures
            *r.os_info == *os_info,
    {
        OsInfoWidget { os_info }
    }

    /// The three lines of the panel: system name, CPU architecture and OS
    /// version.
    pub fn lines(&self) -> (r: Vec<String>)
        ensures
            r@.len() == 3,
            r@[0]@ == "System: "@ + self.os_info.system_name@,
            r@[1]@ == "CPU Arch: "@ + self.os_info.cpu_arch@,
            r@[2]@ == "OS Version: "@ + self.os_info.os_version@,
    {
        let mut a = String::from_str("System: ");
        a.append(self.os_info.system_name.as_str());
        let mut b = String::from_str("CPU Arch: ");
        b.append(self.os_info.cpu_arch.as_str());
        let mut c = String::from_str("OS Version: ");
        c.append(self.os_info.os_version.as_str());
        vec![a, b, c]
    }
}

} // verus!
