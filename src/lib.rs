pub mod errors;
pub mod periodic_function;
pub mod precision;
pub mod sample_type;
pub mod sampling_rate;
pub mod waveform;

pub use errors::{InvalidParameter, InvalidSampleRate};
pub use periodic_function::PeriodicFunction;
pub use precision::{Double, Precision, Single};
pub use sample_type::{SampleType, into_target_type_sanitized, saturate};
pub use sampling_rate::{SamplingRate, SamplingRateValueError};
pub use waveform::{Waveform, WaveformIterator};
