//! Detection of Chan-theory market structure over a stream of price bars:
//! inclusion-merged candles, fractals, pens and segments.

pub mod analyzer;
pub mod bar;
pub mod candle;
pub mod fractal;
pub mod fractal_detector;
pub mod pen;
pub mod pen_detector;
pub mod ringbuffer;
pub mod segment_detector;
pub mod sequence;
