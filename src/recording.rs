//! Recording metadata and the decisions taken on pipeline bus events.
use vstd::prelude::*;
use vstd::string::*;

verus! {

/// Sidecar record of one finished recording.
#[derive(Debug, Clone)]
pub struct RecordingMetadata {
    pub filename: String,
    pub parent_dir: String,
    pub source: String,
    pub media_type: String,
    pub start_time: Option<i64>,
    pub end_time: Option<i64>,
    pub codec: String,
    pub audio_channel: Option<i32>,
}

impl RecordingMetadata {
    /// The descriptive fields agree; timestamps may differ.
    pub open spec fn same_fields(&self, o: &RecordingMetadata) -> bool {
        &&& self.filename@ == o.filename@
        &&& self.parent_dir@ == o.parent_dir@
        &&& self.source@ == o.source@
        &&& self.media_type@ == o.media_type@
        &&& self.codec@ == o.codec@
        &&& self.audio_channel == o.audio_channel
    }

    pub fn new(
        filename: String,
        parent_dir: String,
        source: String,
        media_type: String,
        codec: String,
        audio_channel: Option<i32>,
    ) -> (r: Self)
        ensures
            r.filename == filename,
            r.parent_dir == parent_dir,
            r.source == source,
            r.media_type == media_type,
            r.codec == codec,
            r.audio_channel == audio_channel,
            r.start_time.is_none(),
            r.end_time.is_none(),
    {
        RecordingMetadata {
            filename,
            parent_dir,
            source,
            media_type,
            start_time: None,
            end_time: None,
            codec,
            audio_channel,
        }
    }

    pub fn set_start_time(&mut self, time: i64)
        ensures
            final(self).same_fields(old(self)),
            final(self).start_time == Some(time),
            final(self).end_time == old(self).end_time,
    {
        self.start_time = Some(time);
    }

    pub fn set_end_time(&mut self, time: i64)
        ensures
            final(self).same_fields(old(self)),
            final(self).end_time == Some(time),
            final(self).start_time == old(self).start_time,
    {
        self.end_time = Some(time);
    }

    pub fn start_time(&self) -> (r: Option<i64>)
        ensures
            r == self.start_time,
    {
        self.start_time
    }

    pub fn end_time(&self) -> (r: Option<i64>)
        ensures
            r == self.end_time,
    {
        self.end_time
    }

    /// File name of the record written after a clean end of stream.
    pub fn success_file_name(&self) -> (r: String)
        ensures
            r@ == self.filename@ + ".json"@,
    {
        self.filename.clone().concat(".json")
    }

    /// File name of the record written after a pipeline error.
    pub fn error_file_name(&self) -> (r: String)
        ensures
            r@ == self.filename@ + ".error.json"@,
    {
        self.filename.clone().concat(".error.json")
    }
}

/// First and last time a buffer reached the file sink.
#[derive(Debug, Clone, Copy, PartialEq, Eq, Structural, Default)]
pub struct FileSinkTiming {
    pub start_time: Option<i64>,
    pub end_time: Option<i64>,
}

impl FileSinkTiming {
    pub fn new() -> (r: Self)
        ensures
            r.start_time.is_none() && r.end_time.is_none(),
    {
        FileSinkTiming { start_time: None, end_time: None }
    }

    /// Notes a buffer that arrived at time `now`.
    pub fn on_buffer(&mut self, now: i64)
        ensures
            final(self).start_time == match old(self).start_time {
                Some(t) => Some(t),
                None => Some(now),
            },
            final(self).end_time == Some(now),
    {
        if self.start_time.is_none() {
            self.start_time = Some(now);
        }
        self.end_time = Some(now);
    }
}

/// States of the pipeline engine.
#[derive(Debug, Clone, Copy, PartialEq, Eq, Structural)]
pub enum PipelineState {
    Null,
    Ready,
    Paused,
    Playing,
}

/// What the engine reports on its bus.
#[derive(Debug, Clone)]
pub enum BusEvent {
    Eos,
    Error(String),
    StateChanged(PipelineState),
}

/// What the runner does after an event.
#[derive(Debug, Clone)]
pub enum BusAction {
    /// Keep reading events.
    Continue,
    /// Stop the pipeline; nothing to write.
    Finish,
    /// Stop the pipeline and write the success record.
    FinishRecorded,
    /// Stop the pipeline and write an error record with this message.
    FinishWithError(String),
}

/// The running pipeline's recording bookkeeping.
#[derive(Debug)]
pub struct PipelineRun {
    pub metadata: Option<RecordingMetadata>,
    pub timing: FileSinkTiming,
}

pub open spec fn error_record_message(msg: Seq<char>) -> Seq<char> {
    "Pipeline error: "@ + msg
}

impl PipelineRun {
    pub fn new(metadata: Option<RecordingMetadata>) -> (r: Self)
        ensures
            r.metadata == metadata,
            r.timing == (FileSinkTiming { start_time: None, end_time: None }),
    {
        PipelineRun { metadata, timing: FileSinkTiming::new() }
    }

    /// Decides on one bus event observed at time `now`. End of stream and
    /// errors end the run; so does a change to the null state. A recording's
    /// start is stamped when playing begins and refined from the file sink's
    /// timing at the end.
    pub fn on_event(&mut self, event: &BusEvent, now: i64) -> (a: BusAction)
        ensures
            final(self).timing == old(self).timing,
            final(self).metadata is Some == old(self).metadata is Some,
            match old(self).metadata {
                Some(m) => final(self).metadata->Some_0.same_fields(&m),
                None => true,
            },
            match *event {
                BusEvent::Eos => match old(self).metadata {
                    Some(m) => {
                        &&& a is FinishRecorded
                        &&& final(self).metadata->Some_0.start_time == match old(self).timing.start_time {
                            Some(t) => Some(t),
                            None => m.start_time,
                        }
                        &&& final(self).metadata->Some_0.end_time == match old(self).timing.end_time {
                            Some(t) => Some(t),
                            None => Some(now),
                        }
                    },
                    None => a is Finish,
                },
                BusEvent::Error(msg) => {
                    &&& final(self).metadata == old(self).metadata
                    &&& match old(self).metadata {
                        Some(_) => a matches BusAction::FinishWithError(t) && t@ == error_record_message(msg@),
                        None => a is Finish,
                    }
                },
                BusEvent::StateChanged(s) => {
                    &&& (s == PipelineState::Null ==> a is Finish)
                    &&& (s != PipelineState::Null ==> a is Continue)
                    &&& match old(self).metadata {
                        Some(m) => {
                            &&& final(self).metadata->Some_0.start_time == if s
                                == PipelineState::Playing {
                                Some(now)
                            } else {
                                m.start_time
                            }
                            &&& final(self).metadata->Some_0.end_time == m.end_time
                        },
                        None => true,
                    }
                },
            },
    {
        match event {
            BusEvent::Eos => {
                let timing = self.timing;
                match &mut self.metadata {
                    Some(m) => {
                        m.set_end_time(now);
                        if let Some(t) = timing.start_time {
                            m.set_start_time(t);
                        }
                        if let Some(t) = timing.end_time {
                            m.set_end_time(t);
                        }
                        BusAction::FinishRecorded
                    },
                    None => BusAction::Finish,
                }
            },
            BusEvent::Error(msg) => {
                if self.metadata.is_some() {
                    BusAction::FinishWithError(String::from_str("Pipeline error: ").concat(msg.as_str()))
                } else {
                    BusAction::Finish
                }
            },
            BusEvent::StateChanged(s) => {
                if let Some(m) = &mut self.metadata {
                    if *s == PipelineState::Playing {
                        m.set_start_time(now);
                    }
                }
                if *s == PipelineState::Null {
                    BusAction::Finish
                } else {
                    BusAction::Continue
                }
            },
        }
    }
}

} // verus!
