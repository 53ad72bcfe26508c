use vstd::prelude::*;

verus! {

/// Where the local snapshot file is, when no path is set.
pub const DEFAULT_PATH: &'static str = "./snapshots/mainnet/export.bin";

/// Depth of a local snapshot, when none is set.
pub const DEFAULT_DEPTH: u32 = 50;

/// Milestones between two local snapshots while synced, when none is set.
pub const DEFAULT_INTERVAL_SYNCED: u32 = 50;

/// Milestones between two local snapshots while not synced, when none is set.
pub const DEFAULT_INTERVAL_UNSYNCED: u32 = 1000;

/// What a [`LocalSnapshotConfigBuilder`] holds: each setting, if it was set.
pub struct LocalSnapshotConfigBuilderView {
    pub path: Option<Seq<char>>,
    pub download_urls: Option<Seq<String>>,
    pub depth: Option<u32>,
    pub interval_synced: Option<u32>,
    pub interval_unsynced: Option<u32>,
}

/// What a [`LocalSnapshotConfig`] holds.
pub struct LocalSnapshotConfigView {
    pub path: Seq<char>,
    pub download_urls: Seq<String>,
    pub depth: u32,
    pub interval_synced: u32,
    pub interval_unsynced: u32,
}

impl LocalSnapshotConfigBuilderView {
    /// No setting set.
    pub open spec fn empty() -> Self {
        LocalSnapshotConfigBuilderView {
            path: None,
            download_urls: None,
            depth: None,
            interval_synced: None,
            interval_unsynced: None,
        }
    }

    pub open spec fn with_path(self, path: Seq<char>) -> Self {
        LocalSnapshotConfigBuilderView { path: Some(path), ..self }
    }

    pub open spec fn with_download_urls(self, download_urls: Seq<String>) -> Self {
        LocalSnapshotConfigBuilderView { download_urls: Some(download_urls), ..self }
    }

    pub open spec fn with_depth(self, depth: u32) -> Self {
        LocalSnapshotConfigBuilderView { depth: Some(depth), ..self }
    }

    pub open spec fn with_interval_synced(self, interval_synced: u32) -> Self {
        LocalSnapshotConfigBuilderView { interval_synced: Some(interval_synced), ..self }
    }

    pub open spec fn with_interval_unsynced(self, interval_unsynced: u32) -> Self {
        LocalSnapshotConfigBuilderView { interval_unsynced: Some(interval_unsynced), ..self }
    }

    /// The configuration made of these settings, with the default for each one not set.
    pub open spec fn finished(self) -> LocalSnapshotConfigView {
        LocalSnapshotConfigView {
            path: match self.path {
                Some(p) => p,
                None => DEFAULT_PATH@,
            },
            download_urls: match self.download_urls {
                Some(u) => u,
                None => Seq::empty(),
            },
            depth: match self.depth {
                Some(d) => d,
                None => DEFAULT_DEPTH,
            },
            interval_synced: match self.interval_synced {
                Some(i) => i,
                None => DEFAULT_INTERVAL_SYNCED,
            },
            interval_unsynced: match self.interval_unsynced {
                Some(i) => i,
                None => DEFAULT_INTERVAL_UNSYNCED,
            },
        }
    }
}

/// Builds a [`LocalSnapshotConfig`] one setting at a time.
pub struct LocalSnapshotConfigBuilder {
    path: Option<String>,
    download_urls: Option<Vec<String>>,
    depth: Option<u32>,
    interval_synced: Option<u32>,
    interval_unsynced: Option<u32>,
}

impl View for LocalSnapshotConfigBuilder {
    type V = LocalSnapshotConfigBuilderView;

    closed spec fn view(&self) -> LocalSnapshotConfigBuilderView {
        LocalSnapshotConfigBuilderView {
            path: match self.path {
                Some(p) => Some(p@),
                None => None,
            },
            download_urls: match self.download_urls {
                Some(u) => Some(u@),
                None => None,
            },
            depth: self.depth,
            interval_synced: self.interval_synced,
            interval_unsynced: self.interval_unsynced,
        }
    }
}

impl Default for LocalSnapshotConfigBuilder {
    fn default() -> (r: Self)
        ensures
            r@ == LocalSnapshotConfigBuilderView::empty(),
    {
        LocalSnapshotConfigBuilder {
            path: None,
            download_urls: None,
            depth: None,
            interval_synced: None,
            interval_unsynced: None,
        }
    }
}

impl LocalSnapshotConfigBuilder {
    /// A builder with no setting set.
    pub fn new() -> (r: Self)
        ensures
            r@ == LocalSnapshotConfigBuilderView::empty(),
    {
        Self::default()
    }

    /// Sets the path of the local snapshot file.
    pub fn path(self, path: String) -> (r: Self)
        ensures
            r@ == self@.with_path(path@),
    {
        let mut builder = self;
        builder.path = Some(path);
        builder
    }

    /// Sets the URLs that the local snapshot file may be downloaded from.
    pub fn download_urls(self, download_urls: Vec<String>) -> (r: Self)
        ensures
            r@ == self@.with_download_urls(download_urls@),
    {
        let mut builder = self;
        builder.download_urls = Some(download_urls);
        builder
    }

    /// Sets the depth of a local snapshot.
    pub fn depth(self, depth: u32) -> (r: Self)
        ensures
            r@ == self@.with_depth(depth),
    {
        let mut builder = self;
        builder.depth = Some(depth);
        builder
    }

    /// Sets the milestones between two local snapshots while synced.
    pub fn interval_synced(self, interval_synced: u32) -> (r: Self)
        ensures
            r@ == self@.with_interval_synced(interval_synced),
    {
        let mut builder = self;
        builder.interval_synced = Some(interval_synced);
        builder
    }

    /// Sets the milestones between two local snapshots while not synced.
    pub fn interval_unsynced(self, interval_unsynced: u32) -> (r: Self)
        ensures
            r@ == self@.with_interval_unsynced(interval_unsynced),
    {
        let mut builder = self;
        builder.interval_unsynced = Some(interval_unsynced);
        builder
    }

    /// The configuration: each setting as set, or its default.
    pub fn finish(self) -> (r: LocalSnapshotConfig)
        ensures
            r@ == self@.finished(),
    {
        let path = match self.path {
            Some(p) => p,
            None => String::from_str(DEFAULT_PATH),
        };
        let download_urls = match self.download_urls {
            Some(u) => u,
            None => Vec::new(),
        };
        LocalSnapshotConfig {
            path,
            download_urls,
            depth: self.depth.unwrap_or(DEFAULT_DEPTH),
            interval_synced: self.interval_synced.unwrap_or(DEFAULT_INTERVAL_SYNCED),
            interval_unsynced: self.interval_unsynced.unwrap_or(DEFAULT_INTERVAL_UNSYNCED),
        }
    }
}

/// How local snapshots are found and taken.
#[derive(Clone)]
pub struct LocalSnapshotConfig {
    path: String,
    download_urls: Vec<String>,
    depth: u32,
    interval_synced: u32,
    interval_unsynced: u32,
}

impl View for LocalSnapshotConfig {
    type V = LocalSnapshotConfigView;

    closed spec fn view(&self) -> LocalSnapshotConfigView {
        LocalSnapshotConfigView {
            path: self.path@,
            download_urls: self.download_urls@,
            depth: self.depth,
            interval_synced: self.interval_synced,
            interval_unsynced: self.interval_unsynced,
        }
    }
}

impl LocalSnapshotConfig {
    /// A builder with no setting set.
    pub fn build() -> (r: LocalSnapshotConfigBuilder)
        ensures
            r@ == LocalSnapshotConfigBuilderView::empty(),
    {
        LocalSnapshotConfigBuilder::new()
    }

    /// The path of the local snapshot file.
    pub fn path(&self) -> (r: &String)
        ensures
            r@ == self@.path,
    {
        &self.path
    }

    /// The URLs that the local snapshot file may be downloaded from.
    pub fn download_urls(&self) -> (r: &Vec<String>)
        ensures
            r@ == self@.download_urls,
    {
        &self.download_urls
    }

    /// The depth of a local snapshot.
    pub fn depth(&self) -> (r: u32)
        ensures
            r == self@.depth,
    {
        self.depth
    }

    /// The milestones between two local snapshots while synced.
    pub fn interval_synced(&self) -> (r: u32)
        ensures
            r == self@.interval_synced,
    {
        self.interval_synced
    }

    /// The milestones between two local snapshots while not synced.
    pub fn interval_unsynced(&self) -> (r: u32)
        ensures
            r == self@.interval_unsynced,
    {
        self.interval_unsynced
    }
}

/// A configuration built from no setting holds every default.
pub proof fn lemma_finish_defaults()
    ensures
        LocalSnapshotConfigBuilderView::empty().finished() == (LocalSnapshotConfigView {
            path: DEFAULT_PATH@,
            download_urls: Seq::empty(),
            depth: DEFAULT_DEPTH,
            interval_synced: DEFAULT_INTERVAL_SYNCED,
            interval_unsynced: DEFAULT_INTERVAL_UNSYNCED,
        }),
{
}

/// A setting that was set is what the configuration holds, whatever else was set.
pub proof fn lemma_finish_takes_set_values(
    b: LocalSnapshotConfigBuilderView,
    path: Seq<char>,
    download_urls: Seq<String>,
    depth: u32,
    interval_synced: u32,
    interval_unsynced: u32,
)
    ensures
        b.with_path(path).finished().path == path,
        b.with_download_urls(download_urls).finished().download_urls == download_urls,
        b.with_depth(depth).finished().depth == depth,
        b.with_interval_synced(interval_synced).finished().interval_synced == interval_synced,
        b.with_interval_unsynced(interval_unsynced).finished().interval_unsynced
            == interval_unsynced,
{
}

/// Setting one value leaves every other setting of the configuration as it was.
pub proof fn lemma_set_leaves_others(b: LocalSnapshotConfigBuilderView, depth: u32)
    ensures
        ({
            let before = b.finished();
            let after = b.with_depth(depth).finished();
            after.path == before.path && after.download_urls == before.download_urls
                && after.interval_synced == before.interval_synced && after.interval_unsynced
                == before.interval_unsynced
        }),
{
}

/// Setting a value twice keeps the last one.
pub proof fn lemma_last_set_wins(b: LocalSnapshotConfigBuilderView, first: u32, second: u32)
    ensures
        b.with_depth(first).with_depth(second) == b.with_depth(second),
        b.with_interval_synced(first).with_interval_synced(second) == b.with_interval_synced(
            second,
        ),
        b.with_interval_unsynced(first).with_interval_unsynced(second)
            == b.with_interval_unsynced(second),
{
}

/// One call of a builder's setter, with its argument.
pub enum Setting {
    Path(Seq<char>),
    DownloadUrls(Seq<String>),
    Depth(u32),
    IntervalSynced(u32),
    IntervalUnsynced(u32),
}

impl LocalSnapshotConfigBuilderView {
    /// These settings after one setter call.
    pub open spec fn with_setting(self, setting: Setting) -> Self {
        match setting {
            Setting::Path(p) => self.with_path(p),
            Setting::DownloadUrls(u) => self.with_download_urls(u),
            Setting::Depth(d) => self.with_depth(d),
            Setting::IntervalSynced(i) => self.with_interval_synced(i),
            Setting::IntervalUnsynced(i) => self.with_interval_unsynced(i),
        }
    }

    /// These settings after the setter calls `settings`, in order.
    pub open spec fn with_settings(self, settings: Seq<Setting>) -> Self
        decreases settings.len(),
    {
        if settings.len() == 0 {
            self
        } else {
            self.with_settings(settings.drop_last()).with_setting(settings.last())
        }
    }
}

/// The argument of the last `path` call among `settings`, if any.
pub open spec fn last_path(settings: Seq<Setting>) -> Option<Seq<char>>
    decreases settings.len(),
{
    if settings.len() == 0 {
        None
    } else {
        match settings.last() {
            Setting::Path(p) => Some(p),
            _ => last_path(settings.drop_last()),
        }
    }
}

/// The argument of the last `download_urls` call among `settings`, if any.
pub open spec fn last_download_urls(settings: Seq<Setting>) -> Option<Seq<String>>
    decreases settings.len(),
{
    if settings.len() == 0 {
        None
    } else {
        match settings.last() {
            Setting::DownloadUrls(u) => Some(u),
            _ => last_download_urls(settings.drop_last()),
        }
    }
}

/// The argument of the last `depth` call among `settings`, if any.
pub open spec fn last_depth(settings: Seq<Setting>) -> Option<u32>
    decreases settings.len(),
{
    if settings.len() == 0 {
        None
    } else {
        match settings.last() {
            Setting::Depth(d) => Some(d),
            _ => last_depth(settings.drop_last()),
        }
    }
}

/// The argument of the last `interval_synced` call among `settings`, if any.
pub open spec fn last_interval_synced(settings: Seq<Setting>) -> Option<u32>
    decreases settings.len(),
{
    if settings.len() == 0 {
        None
    } else {
        match settings.last() {
            Setting::IntervalSynced(i) => Some(i),
            _ => last_interval_synced(settings.drop_last()),
        }
    }
}

/// The argument of the last `interval_unsynced` call among `settings`, if any.
pub open spec fn last_interval_unsynced(settings: Seq<Setting>) -> Option<u32>
    decreases settings.len(),
{
    if settings.len() == 0 {
        None
    } else {
        match settings.last() {
            Setting::IntervalUnsynced(i) => Some(i),
            _ => last_interval_unsynced(settings.drop_last()),
        }
    }
}

/// After any sequence of setter calls on a new builder, each setting holds the argument of its
/// last call, or nothing if it was never set.
pub proof fn lemma_settings_keep_last(settings: Seq<Setting>)
    ensures
        LocalSnapshotConfigBuilderView::empty().with_settings(settings) == (
        LocalSnapshotConfigBuilderView {
            path: last_path(settings),
            download_urls: last_download_urls(settings),
            depth: last_depth(settings),
            interval_synced: last_interval_synced(settings),
            interval_unsynced: last_interval_unsynced(settings),
        }),
    decreases settings.len(),
{
    if settings.len() > 0 {
        lemma_settings_keep_last(settings.drop_last());
    }
}

/// After any sequence of setter calls on a new builder, the finished configuration holds, for
/// each setting, the argument of its last call, or its default if it was never set.
pub proof fn lemma_finish_after_settings(settings: Seq<Setting>)
    ensures
        ({
            let config = LocalSnapshotConfigBuilderView::empty().with_settings(settings).finished();
            &&& config.path == match last_path(settings) {
                Some(p) => p,
                None => DEFAULT_PATH@,
            }
            &&& config.download_urls == match last_download_urls(settings) {
                Some(u) => u,
                None => Seq::<String>::empty(),
            }
            &&& config.depth == match last_depth(settings) {
                Some(d) => d,
                None => DEFAULT_DEPTH,
            }
            &&& config.interval_synced == match last_interval_synced(settings) {
                Some(i) => i,
                None => DEFAULT_INTERVAL_SYNCED,
            }
            &&& config.interval_unsynced == match last_interval_unsynced(settings) {
                Some(i) => i,
                None => DEFAULT_INTERVAL_UNSYNCED,
            }
        }),
{
    lemma_settings_keep_last(settings);
}

/// `LocalSnapshotConfig::build()` and `LocalSnapshotConfigBuilder::new()` both start with no
/// setting set, so the same setter calls then `finish` give the same configuration from either.
pub proof fn lemma_build_and_new_agree(
    from_build: LocalSnapshotConfigBuilderView,
    from_new: LocalSnapshotConfigBuilderView,
    settings: Seq<Setting>,
)
    requires
        from_build == LocalSnapshotConfigBuilderView::empty(),
        from_new == LocalSnapshotConfigBuilderView::empty(),
    ensures
        from_build.with_settings(settings).finished() == from_new.with_settings(settings).finished(),
{
}

} // verus!
