//! Core logic of a chart-hosting web page: the resize-options value object
//! and its encoding, the decimal rendering of DOM element ids, and the
//! lifecycle of a chart host (mount, render, publish-once handle slot,
//! resize policy). The browser, the reactive framework and the chart
//! renderer itself live outside this crate; this crate decides, they act.

pub mod codec;
pub mod digits;
pub mod host;
pub mod options;
