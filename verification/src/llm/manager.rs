//! Keeping a language model in memory while it is in use.
//!
//! Times are milliseconds on a clock that never runs backwards.

use vstd::prelude::*;

verus! {

/// Time between two looks at the model's activity, unless set otherwise.
pub const DEFAULT_ACTIVITY_CHECK_INTERVAL_MS: u64 = 3_000;

/// Idle time after which the model is unloaded, unless set otherwise.
pub const DEFAULT_INACTIVITY_THRESHOLD_MS: u64 = 150_000;

/// Collects the settings of a [`ModelManager`].
pub struct ModelManagerBuilder {
    pub model_path: Option<String>,
    pub activity_check_interval: Option<u64>,
    pub inactivity_threshold: Option<u64>,
}

impl Default for ModelManagerBuilder {
    fn default() -> (out: Self)
        ensures
            out.model_path is None,
            out.activity_check_interval is None,
            out.inactivity_threshold is None,
    {
        ModelManagerBuilder {
            model_path: None,
            activity_check_interval: None,
            inactivity_threshold: None,
        }
    }
}

impl ModelManagerBuilder {
    /// Sets where the model's file lies.
    pub fn model_path(self, v: String) -> (out: Self)
        ensures
            out.model_path == Some(v),
            out.activity_check_interval == self.activity_check_interval,
            out.inactivity_threshold == self.inactivity_threshold,
    {
        let mut out = self;
        out.model_path = Some(v);
        out
    }

    /// Sets the time between two looks at the model's activity.
    pub fn activity_check_interval(self, v: u64) -> (out: Self)
        ensures
            out.model_path == self.model_path,
            out.activity_check_interval == Some(v),
            out.inactivity_threshold == self.inactivity_threshold,
    {
        let mut out = self;
        out.activity_check_interval = Some(v);
        out
    }

    /// Sets the idle time after which the model is unloaded.
    pub fn inactivity_threshold(self, v: u64) -> (out: Self)
        ensures
            out.model_path == self.model_path,
            out.activity_check_interval == self.activity_check_interval,
            out.inactivity_threshold == Some(v),
    {
        let mut out = self;
        out.inactivity_threshold = Some(v);
        out
    }

    /// Builds the manager, with no model loaded and no activity seen.
    pub fn build(self) -> (out: ModelManager)
        requires
            self.model_path is Some,
        ensures
            out.model_path == self.model_path->0,
            !out.loaded,
            out.last_activity is None,
            out.activity_check_interval == match self.activity_check_interval {
                Some(v) => v,
                None => DEFAULT_ACTIVITY_CHECK_INTERVAL_MS,
            },
            out.inactivity_threshold == match self.inactivity_threshold {
                Some(v) => v,
                None => DEFAULT_INACTIVITY_THRESHOLD_MS,
            },
    {
        let model_path = match self.model_path {
            Some(p) => p,
            None => String::new(),
        };
        ModelManager {
            model_path,
            loaded: false,
            last_activity: None,
            activity_check_interval: match self.activity_check_interval {
                Some(v) => v,
                None => DEFAULT_ACTIVITY_CHECK_INTERVAL_MS,
            },
            inactivity_threshold: match self.inactivity_threshold {
                Some(v) => v,
                None => DEFAULT_INACTIVITY_THRESHOLD_MS,
            },
        }
    }

    /// Builds the manager where a model path has been set.
    pub fn try_build(self) -> (out: Option<ModelManager>)
        ensures
            out is Some == self.model_path is Some,
            out is Some ==> out->0.model_path == self.model_path->0 && !out->0.loaded,
    {
        if self.model_path.is_some() {
            Some(self.build())
        } else {
            None
        }
    }
}

/// Why a model cannot be had.
#[derive(Clone, Copy, Debug, PartialEq, Eq)]
pub enum ModelError {
    /// The model's file is not there.
    ModelNotDownloaded,
}

/// How the model asked for is had.
#[derive(Clone, Copy, Debug, PartialEq, Eq)]
pub enum ModelAccess {
    /// It is in memory.
    Loaded,
    /// It has to be loaded from its file first.
    Load,
}

/// When a model is in memory.
pub struct ModelManager {
    pub model_path: String,
    pub loaded: bool,
    pub last_activity: Option<u64>,
    pub activity_check_interval: u64,
    pub inactivity_threshold: u64,
}

impl ModelManager {
    /// Starts a builder with nothing set.
    pub fn builder() -> (out: ModelManagerBuilder)
        ensures
            out.model_path is None,
            out.activity_check_interval is None,
            out.inactivity_threshold is None,
    {
        ModelManagerBuilder {
            model_path: None,
            activity_check_interval: None,
            inactivity_threshold: None,
        }
    }

    /// Whether a loaded model has been idle for longer than the threshold.
    pub open spec fn is_idle(self, now_ms: u64) -> bool {
        match self.last_activity {
            Some(t) => self.loaded && now_ms >= t && now_ms - t > self.inactivity_threshold,
            None => false,
        }
    }

    /// Takes note that the model is in use at `now_ms`.
    pub fn update_activity(&mut self, now_ms: u64)
        ensures
            final(self).last_activity == Some(now_ms),
            final(self).loaded == old(self).loaded,
            final(self).model_path == old(self).model_path,
            final(self).activity_check_interval == old(self).activity_check_interval,
            final(self).inactivity_threshold == old(self).inactivity_threshold,
    {
        self.last_activity = Some(now_ms);
    }

    /// Asks for the model at `now_ms`, which counts as use. A model in
    /// memory is had at once; otherwise it is to be loaded, provided its
    /// file exists.
    pub fn get_model(&mut self, now_ms: u64, file_exists: bool) -> (out: Result<
        ModelAccess,
        ModelError,
    >)
        ensures
            final(self).last_activity == Some(now_ms),
            final(self).loaded == old(self).loaded,
            final(self).model_path == old(self).model_path,
            out == if old(self).loaded {
                Ok::<ModelAccess, ModelError>(ModelAccess::Loaded)
            } else if !file_exists {
                Err(ModelError::ModelNotDownloaded)
            } else {
                Ok(ModelAccess::Load)
            },
    {
        self.update_activity(now_ms);
        if self.loaded {
            Ok(ModelAccess::Loaded)
        } else if !file_exists {
            Err(ModelError::ModelNotDownloaded)
        } else {
            Ok(ModelAccess::Load)
        }
    }

    /// Takes note of how loading went: a model that loaded is in memory.
    pub fn finish_load(&mut self, succeeded: bool)
        ensures
            final(self).loaded == (old(self).loaded || succeeded),
            final(self).last_activity == old(self).last_activity,
            final(self).model_path == old(self).model_path,
    {
        if succeeded {
            self.loaded = true;
        }
    }

    /// Looks at the model's activity at `now_ms` and unloads a model that
    /// has been idle for longer than the threshold. Returns whether it did.
    pub fn monitor(&mut self, now_ms: u64) -> (unloaded: bool)
        ensures
            unloaded == old(self).is_idle(now_ms),
            final(self).loaded == (old(self).loaded && !unloaded),
            final(self).last_activity == old(self).last_activity,
            final(self).model_path == old(self).model_path,
    {
        let idle = match self.last_activity {
            Some(t) => self.loaded && now_ms >= t && now_ms - t > self.inactivity_threshold,
            None => false,
        };
        if idle {
            self.loaded = false;
        }
        idle
    }
}

/// A model in use is never unloaded: right after a request for it, no look
/// at its activity finds it idle until the threshold has passed.
pub proof fn law_model_in_use_stays(m: ModelManager, used_ms: u64, now_ms: u64)
    requires
        m.last_activity == Some(used_ms),
        now_ms <= used_ms + m.inactivity_threshold,
    ensures
        !m.is_idle(now_ms),
{
}

} // verus!
