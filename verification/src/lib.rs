//! A terminal progress bar: a counter with a fixed target, a pure
//! line formatter, pluggable reporting, and byte-stream proxies that
//! advance the bar as a side effect of reading or writing.
mod bar;
mod outside;
mod proxy;
mod text;

pub use bar::bar_spec;
pub use bar::counter_spec;
pub use bar::fill_count;
pub use bar::finish_text;
pub use bar::lemma_bar_at_total;
pub use bar::lemma_bar_at_zero;
pub use bar::lemma_bar_len;
pub use bar::lemma_line_covers_width;
pub use bar::lemma_line_fills_width;
pub use bar::line_spec;
pub use bar::pre_spec;
pub use bar::suf_spec;
pub use bar::percent_hundredths;
pub use bar::percent_str_spec;
pub use bar::unit_spec;
pub use bar::Bar;
pub use bar::BarView;
pub use bar::Error;
pub use bar::Reporter;
pub use bar::Units;
pub use outside::bytes_str_of;
pub use outside::Sink;
pub use proxy::Reader;
pub use proxy::Writer;
pub use text::dec_spec;
pub use text::digit_char;
pub use text::repeat_char;
