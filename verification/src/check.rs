//! The checker: the watchers of all websites that can be watched.

use crate::config::{Config, Global, Website};
use crate::registry::Registry;
use crate::target::{configured, ConfigError, ConfigErrorView, Target, TargetView};
use vstd::prelude::*;

verus! {

/// A website that gives no watcher, and why.
#[derive(Debug, PartialEq, Eq)]
pub struct Rejected {
    pub name: String,
    pub error: ConfigError,
}

/// A `Rejected` with its texts as sequences of characters.
pub struct RejectedView {
    pub name: Seq<char>,
    pub error: ConfigErrorView,
}

impl View for Rejected {
    type V = RejectedView;

    open spec fn view(&self) -> RejectedView {
        RejectedView { name: self.name@, error: self.error@ }
    }
}

/// Why nothing can be watched.
#[derive(Debug, PartialEq, Eq)]
pub enum StartError {
    /// No website gives a watcher; the rejected ones come along.
    NoTargets { rejected: Vec<Rejected> },
}

/// A website by its name, and the watcher or the refusal that its settings
/// give.
pub type Verdict = (Seq<char>, Result<TargetView, ConfigErrorView>);

/// The verdicts on the websites, in their order.
pub open spec fn verdicts(websites: Seq<(Seq<char>, Website)>, global: Global) -> Seq<Verdict> {
    Seq::new(
        websites.len(),
        |i: int| (websites[i].0, configured(websites[i].0, websites[i].1@, global)),
    )
}

pub open spec fn is_accepted(verdict: Verdict) -> bool {
    verdict.1 is Ok
}

pub open spec fn is_refused(verdict: Verdict) -> bool {
    verdict.1 is Err
}

/// The watcher of an accepted website.
pub open spec fn watcher_of(verdict: Verdict) -> TargetView {
    verdict.1->Ok_0
}

/// The rejection of a refused website.
pub open spec fn rejection_of(verdict: Verdict) -> RejectedView {
    RejectedView { name: verdict.0, error: verdict.1->Err_0 }
}

/// The watchers among the verdicts, in their order.
pub open spec fn watchers_among(verdicts: Seq<Verdict>) -> Seq<TargetView> {
    verdicts.filter(|v: Verdict| is_accepted(v)).map_values(|v: Verdict| watcher_of(v))
}

/// The rejections among the verdicts, in their order.
pub open spec fn rejections_among(verdicts: Seq<Verdict>) -> Seq<RejectedView> {
    verdicts.filter(|v: Verdict| is_refused(v)).map_values(|v: Verdict| rejection_of(v))
}

/// The watchers of the websites whose settings give one, in the order of
/// the websites.
pub open spec fn accepted(websites: Seq<(Seq<char>, Website)>, global: Global) -> Seq<TargetView> {
    watchers_among(verdicts(websites, global))
}

/// The websites whose settings give no watcher, in the order of the
/// websites, each with the reason.
pub open spec fn refused(websites: Seq<(Seq<char>, Website)>, global: Global) -> Seq<
    RejectedView,
> {
    rejections_among(verdicts(websites, global))
}

/// A run of watchers as values.
pub open spec fn target_views(targets: Seq<Target>) -> Seq<TargetView> {
    Seq::new(targets.len(), |i: int| targets[i]@)
}

/// A run of rejections as values.
pub open spec fn rejected_views(rejected: Seq<Rejected>) -> Seq<RejectedView> {
    Seq::new(rejected.len(), |i: int| rejected[i]@)
}

/// One verdict more adds a watcher or a rejection to those found so far.
proof fn one_verdict_more(verdicts: Seq<Verdict>, i: int)
    requires
        0 <= i < verdicts.len(),
    ensures
        watchers_among(verdicts.take(i + 1)) == if is_accepted(verdicts[i]) {
            watchers_among(verdicts.take(i)).push(watcher_of(verdicts[i]))
        } else {
            watchers_among(verdicts.take(i))
        },
        rejections_among(verdicts.take(i + 1)) == if is_refused(verdicts[i]) {
            rejections_among(verdicts.take(i)).push(rejection_of(verdicts[i]))
        } else {
            rejections_among(verdicts.take(i))
        },
{
    reveal(Seq::filter);
    assert(verdicts.take(i + 1).drop_last() == verdicts.take(i));
}

/// Among any verdicts, the watchers and the rejections add up to all.
proof fn verdicts_split(verdicts: Seq<Verdict>, upto: int)
    requires
        0 <= upto <= verdicts.len(),
    ensures
        watchers_among(verdicts.take(upto)).len() + rejections_among(verdicts.take(upto)).len()
            == upto,
    decreases upto,
{
    if upto == 0 {
        reveal(Seq::filter);
    } else {
        verdicts_split(verdicts, upto - 1);
        one_verdict_more(verdicts, upto - 1);
    }
}

/// Every website is watched or left out, and none is both.
pub proof fn every_website_is_judged(websites: Seq<(Seq<char>, Website)>, global: Global)
    ensures
        accepted(websites, global).len() + refused(websites, global).len() == websites.len(),
{
    let all = verdicts(websites, global);
    verdicts_split(all, all.len() as int);
    assert(all.take(all.len() as int) == all);
}

/// Whether `checker` is what the websites and the global settings call for:
/// a checker with the accepted websites' watchers where there is one at
/// least, else the refusal to start; the rejected websites come with either.
pub open spec fn started(
    websites: Seq<(Seq<char>, Website)>,
    global: Global,
    checker: Result<WebsiteChecker, StartError>,
) -> bool {
    match checker {
        Ok(chk) => {
            &&& chk.watchers() == accepted(websites, global)
            &&& chk.left_out() == refused(websites, global)
            &&& chk.watchers().len() > 0
        },
        Err(StartError::NoTargets { rejected }) => {
            &&& accepted(websites, global).len() == 0
            &&& rejected_views(rejected@) == refused(websites, global)
        },
    }
}

/// The watchers of all websites that can be watched.
#[derive(Debug)]
pub struct WebsiteChecker {
    targets: Vec<Target>,
    rejected: Vec<Rejected>,
}

impl WebsiteChecker {
    #[verifier::type_invariant]
    spec fn inv(self) -> bool {
        self.targets@.len() > 0
    }

    /// The watchers, in the order of the websites.
    pub closed spec fn watchers(self) -> Seq<TargetView> {
        target_views(self.targets@)
    }

    /// The websites left out, in the order of the websites.
    pub closed spec fn left_out(self) -> Seq<RejectedView> {
        rejected_views(self.rejected@)
    }

    /// A checker with a fresh watcher for each website of `cfg` whose
    /// settings give one. The others are left out, each with its reason. With
    /// no watcher at all there is nothing to check, and no checker.
    pub fn new(cfg: &Config) -> (checker: Result<Self, StartError>)
        ensures
            started(cfg.websites@, cfg.global, checker),
    {
        let (targets, rejected) = Self::collect_targets(&cfg.websites, &cfg.global);
        if targets.len() == 0 {
            Err(StartError::NoTargets { rejected })
        } else {
            Ok(Self { targets, rejected })
        }
    }

    /// Hands out the watchers, to be started together: all count their
    /// intervals from the same instant.
    pub fn watch(self) -> (targets: Vec<Target>)
        ensures
            target_views(targets@) == self.watchers(),
            targets@.len() > 0,
    {
        proof {
            use_type_invariant(&self);
        }
        self.targets
    }

    /// The websites that were left out, each with its reason.
    pub fn rejected(&self) -> (rejected: &Vec<Rejected>)
        ensures
            rejected_views(rejected@) == self.left_out(),
    {
        &self.rejected
    }

    /// How many websites are watched; never none.
    pub fn len(&self) -> (n: usize)
        ensures
            n == self.watchers().len(),
            n > 0,
    {
        proof {
            use_type_invariant(self);
        }
        self.targets.len()
    }

    fn collect_targets(websites: &Registry<Website>, global: &Global) -> (collected: (
        Vec<Target>,
        Vec<Rejected>,
    ))
        ensures
            target_views(collected.0@) == accepted(websites@, *global),
            rejected_views(collected.1@) == refused(websites@, *global),
    {
        let mut targets: Vec<Target> = Vec::new();
        let mut rejected: Vec<Rejected> = Vec::new();
        let ghost all = verdicts(websites@, *global);
        let n = websites.len();
        let mut i: usize = 0;
        while i < n
            invariant
                i <= n,
                n == websites@.len(),
                all == verdicts(websites@, *global),
                target_views(targets@) == watchers_among(all.take(i as int)),
                rejected_views(rejected@) == rejections_among(all.take(i as int)),
            decreases n - i,
        {
            let name = websites.name_at(i);
            proof {
                one_verdict_more(all, i as int);
            }
            match Target::from_config(name.as_str(), websites.value_at(i), global) {
                Ok(target) => {
                    targets.push(target);
                },
                Err(error) => {
                    rejected.push(Rejected { name: name.clone(), error });
                },
            }
            i += 1;
        }
        assert(all.take(n as int) == all);
        (targets, rejected)
    }
}

} // verus!
