//! A stand-in for the local speech model, and the segments a model yields.

use vstd::prelude::*;

verus! {

/// A stretch of transcribed speech. Times are whole microseconds.
#[derive(Clone, Debug)]
pub struct Segment<C> {
    pub text: String,
    pub language: Option<String>,
    pub start_us: u64,
    pub end_us: u64,
    pub confidence: C,
}

impl<C: Copy> Segment<C> {
    /// The text spoken.
    pub fn text(&self) -> (out: &str)
        ensures
            out@ == self.text@,
    {
        self.text.as_str()
    }

    /// The language spoken, where the model told.
    pub fn language(&self) -> (out: Option<&str>)
        ensures
            match (out, self.language) {
                (Some(o), Some(l)) => o@ == l@,
                (None, None) => true,
                _ => false,
            },
    {
        match &self.language {
            Some(l) => Some(l.as_str()),
            None => None,
        }
    }

    /// When the segment starts.
    pub fn start(&self) -> (out: u64)
        ensures
            out == self.start_us,
    {
        self.start_us
    }

    /// When the segment ends.
    pub fn end(&self) -> (out: u64)
        ensures
            out == self.end_us,
    {
        self.end_us
    }

    /// How long the segment lasts; negative where it ends before it starts.
    pub fn duration(&self) -> (out: i128)
        ensures
            out == self.end_us - self.start_us,
    {
        self.end_us as i128 - self.start_us as i128
    }

    /// How sure the model is of the segment.
    pub fn confidence(&self) -> (out: C)
        ensures
            out == self.confidence,
    {
        self.confidence
    }
}

/// Why the stand-in cannot be built. It always can.
#[derive(Clone, Copy, Debug, PartialEq, Eq)]
pub enum WhisperError {
    /// The model could not be loaded.
    ModelLoad,
}

/// Collects the settings of the stand-in, which has none.
#[derive(Clone, Copy, Debug, PartialEq, Eq)]
pub struct WhisperBuilder {}

/// A stand-in for the speech model: it hears the same word in everything.
#[derive(Clone, Copy, Debug, PartialEq, Eq)]
pub struct Whisper {}

impl WhisperBuilder {
    /// Accepts a model path and makes no use of it.
    pub fn model_path(self, _model_path: String) -> (out: Self)
        ensures
            out == self,
    {
        self
    }

    /// Accepts languages and makes no use of them.
    pub fn languages(self, _languages: Vec<String>) -> (out: Self)
        ensures
            out == self,
    {
        self
    }

    /// Builds the stand-in.
    pub fn build(self) -> (out: Result<Whisper, WhisperError>)
        ensures
            out == Ok::<Whisper, WhisperError>(Whisper {  }),
    {
        Ok(Whisper {  })
    }
}

impl Whisper {
    /// Starts a builder.
    pub fn builder() -> (out: WhisperBuilder)
        ensures
            out == (WhisperBuilder {  }),
    {
        WhisperBuilder {  }
    }

    /// Transcribes `samples`: one segment, `mock`, lasting the first second,
    /// with the confidence given as `certain`.
    pub fn transcribe<T, C: Copy>(&mut self, _samples: &Vec<T>, certain: C) -> (out: Result<
        Vec<Segment<C>>,
        WhisperError,
    >)
        ensures
            match out {
                Ok(segments) => {
                    &&& segments@.len() == 1
                    &&& segments@[0].text@ == "mock"@
                    &&& segments@[0].language is None
                    &&& segments@[0].start_us == 0
                    &&& segments@[0].end_us == 1_000_000
                    &&& segments@[0].confidence == certain
                },
                Err(_) => false,
            },
    {
        let mut out: Vec<Segment<C>> = Vec::new();
        out.push(
            Segment {
                text: "mock".to_owned(),
                language: None,
                start_us: 0,
                end_us: 1_000_000,
                confidence: certain,
            },
        );
        Ok(out)
    }
}

} // verus!
