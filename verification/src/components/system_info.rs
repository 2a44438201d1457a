//! Processor and memory load side by side.

use vstd::prelude::*;
use vstd::string::*;
use crate::style::{fragment_views, Fragment, FragmentView};
use crate::text::{decimal_string, decimal_text};

verus! {

/// Processor and memory load in percent.
#[derive(Debug)]
pub struct SystemInfo {
    pub cpu: String,
    pub ram: String,
}

/// The state of the load display.
pub struct SystemInfoView {
    pub cpu: Seq<char>,
    pub ram: Seq<char>,
}

impl View for SystemInfo {
    type V = SystemInfoView;

    open spec fn view(&self) -> SystemInfoView {
        SystemInfoView { cpu: self.cpu@, ram: self.ram@ }
    }
}

impl SystemInfoView {
    /// The display for these loads.
    pub open spec fn reading(cpu_percent: u32, memory_percent: u32) -> SystemInfoView {
        SystemInfoView {
            cpu: decimal_text(cpu_percent as nat),
            ram: decimal_text(memory_percent as nat),
        }
    }

    /// The fragments of the display.
    pub open spec fn rendered(self) -> Seq<FragmentView> {
        seq![
            FragmentView::raw("󰻠 "@),
            FragmentView::raw(self.cpu + "%"@),
            FragmentView::raw(" "@),
            FragmentView::raw("󰍛 "@),
            FragmentView::raw(self.ram + "%"@),
        ]
    }
}

impl SystemInfo {
    /// A display that shows 0 for both loads.
    pub fn new() -> (info: SystemInfo)
        ensures
            info@ == SystemInfoView::reading(0, 0),
    {
        SystemInfo { cpu: decimal_string(0), ram: decimal_string(0) }
    }

    /// Takes new loads.
    pub fn update(&mut self, cpu_percent: u32, memory_percent: u32)
        ensures
            final(self)@ == SystemInfoView::reading(cpu_percent, memory_percent),
    {
        self.ram = decimal_string(memory_percent as u64);
        self.cpu = decimal_string(cpu_percent as u64);
    }

    /// Renders the display.
    pub fn render(&self) -> (spans: Vec<Fragment>)
        ensures
            fragment_views(spans@) == self@.rendered(),
    {
        let mut spans: Vec<Fragment> = Vec::new();
        spans.push(Fragment::text("󰻠 "));
        spans.push(Fragment::percent(self.cpu.as_str()));
        spans.push(Fragment::text(" "));
        spans.push(Fragment::text("󰍛 "));
        spans.push(Fragment::percent(self.ram.as_str()));
        assert(fragment_views(spans@) =~= self@.rendered());
        spans
    }
}

} // verus!
