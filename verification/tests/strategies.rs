use std::future::Future;
use std::time::Duration;

use tokio::runtime::Runtime;
use turborepo_discovery::caching::{CachingAction, CachingPackageDiscovery};
use turborepo_discovery::discovery::{available, DiscoveryResponse, Error};
use turborepo_discovery::fallback::{FallbackAction, FallbackPackageDiscovery, PrimaryOutcome};
use turborepo_discovery::package_manager::PackageManager;

type Cause = Box<dyn std::error::Error + Send + Sync>;
type Answer = Result<DiscoveryResponse, Error<Cause>>;

trait Discover {
    fn discover_packages(&mut self) -> impl Future<Output = Answer>;
}

impl<A: Discover, B: Discover> Discover for FallbackPackageDiscovery<A, B> {
    async fn discover_packages(&mut self) -> Answer {
        let mut action = self.begin();
        loop {
            action = match action {
                FallbackAction::RunPrimary { limit } => {
                    let outcome =
                        match tokio::time::timeout(limit, self.primary.discover_packages()).await {
                            Ok(answer) => PrimaryOutcome::Answered(answer),
                            Err(_) => PrimaryOutcome::TimedOut,
                        };
                    self.after_primary(outcome)
                }
                FallbackAction::RunFallback { primary_error } => {
                    let answer = self.fallback.discover_packages().await;
                    self.after_fallback(primary_error, answer)
                }
                FallbackAction::Return(answer) => return answer,
            };
        }
    }
}

impl<A: Discover> Discover for CachingPackageDiscovery<A> {
    async fn discover_packages(&mut self) -> Answer {
        let mut action = self.begin();
        loop {
            action = match action {
                CachingAction::RunPrimary => {
                    let answer = self.primary.discover_packages().await;
                    self.after_primary(answer)
                }
                CachingAction::Return(answer) => return answer,
            };
        }
    }
}

struct MockDiscovery {
    should_fail: bool,
    calls: usize,
}

impl MockDiscovery {
    fn new(should_fail: bool) -> Self {
        Self {
            should_fail,
            calls: 0,
        }
    }
}

impl Discover for MockDiscovery {
    async fn discover_packages(&mut self) -> Answer {
        if self.should_fail {
            Err(Error::Failed(Box::new(std::io::Error::new(
                std::io::ErrorKind::Other,
                "mock error",
            ))))
        } else {
            tokio::time::sleep(Duration::from_millis(10)).await;
            self.calls += 1;
            // Simulate successful package discovery
            Ok(DiscoveryResponse {
                package_manager: PackageManager::Npm,
                workspaces: vec![],
            })
        }
    }
}

#[test]
fn test_fallback_on_primary_failure() {
    let rt = Runtime::new().unwrap();
    rt.block_on(async {
        let primary = MockDiscovery::new(true);
        let fallback = MockDiscovery::new(false);

        let mut discovery =
            FallbackPackageDiscovery::new(primary, fallback, Duration::from_secs(5));

        // Invoke the method under test
        let result = discovery.discover_packages().await;

        // Assert that the fallback was used and successful
        assert!(result.is_ok());

        // Assert that the fallback was used
        assert_eq!(discovery.primary.calls, 0);
        assert_eq!(discovery.fallback.calls, 1);
    });
}

#[test]
fn test_fallback_on_primary_timeout() {
    let rt = Runtime::new().unwrap();
    rt.block_on(async {
        let primary = MockDiscovery::new(false);
        let fallback = MockDiscovery::new(false);

        let mut discovery =
            FallbackPackageDiscovery::new(primary, fallback, Duration::from_secs(0));

        // Invoke the method under test
        let result = discovery.discover_packages().await;

        // Assert that the fallback was used and successful
        assert!(result.is_ok());

        // Assert that the fallback was used
        assert_eq!(discovery.primary.calls, 0);
        assert_eq!(discovery.fallback.calls, 1);
    });
}

struct MockPackageDiscovery {
    call_count: usize,
}

impl Discover for MockPackageDiscovery {
    async fn discover_packages(&mut self) -> Answer {
        self.call_count += 1;
        // Simulate successful package discovery
        Ok(DiscoveryResponse {
            package_manager: PackageManager::Npm,
            workspaces: vec![],
        })
    }
}

#[test]
fn test_caching_package_discovery() {
    let rt = Runtime::new().unwrap();
    rt.block_on(async {
        let primary = MockPackageDiscovery { call_count: 0 };
        let mut discovery = CachingPackageDiscovery::new(primary);

        // First call should use primary discovery
        let _first_result = discovery.discover_packages().await.unwrap();
        assert_eq!(discovery.primary.call_count, 1);

        // Second call should use cached data and not increase call count
        let _second_result = discovery.discover_packages().await.unwrap();
        assert_eq!(discovery.primary.call_count, 1);
    });
}

#[test]
fn a_kept_response_is_given_once() {
    let rt = Runtime::new().unwrap();
    rt.block_on(async {
        let mut discovery = CachingPackageDiscovery::new(MockPackageDiscovery { call_count: 0 });
        for expected in [1, 1, 2, 2, 3] {
            assert!(discovery.discover_packages().await.is_ok());
            assert_eq!(discovery.primary.call_count, expected);
        }
    });
}

#[test]
fn primary_response_leaves_the_fallback_alone() {
    let rt = Runtime::new().unwrap();
    rt.block_on(async {
        let mut discovery = FallbackPackageDiscovery::new(
            MockDiscovery::new(false),
            MockDiscovery::new(false),
            Duration::from_secs(5),
        );
        assert!(discovery.discover_packages().await.is_ok());
        assert_eq!(discovery.primary.calls, 1);
        assert_eq!(discovery.fallback.calls, 0);
    });
}

type TextAnswer = Result<DiscoveryResponse, Error<&'static str>>;

fn response(package_manager: PackageManager) -> DiscoveryResponse {
    DiscoveryResponse {
        workspaces: vec![],
        package_manager,
    }
}

fn run_fallback(primary: Option<TextAnswer>, fallback: TextAnswer) -> (TextAnswer, bool) {
    let discovery = FallbackPackageDiscovery::new((), (), Duration::from_millis(7));
    let limit = match discovery.begin::<&'static str>() {
        FallbackAction::RunPrimary { limit } => limit,
        _ => panic!("the primary strategy comes first"),
    };
    assert_eq!(limit, Duration::from_millis(7));
    let outcome = match primary {
        Some(answer) => PrimaryOutcome::Answered(answer),
        None => PrimaryOutcome::TimedOut,
    };
    match discovery.after_primary(outcome) {
        FallbackAction::Return(answer) => (answer, false),
        FallbackAction::RunFallback { primary_error } => {
            match discovery.after_fallback(primary_error, fallback) {
                FallbackAction::Return(answer) => (answer, true),
                _ => panic!("the fallback's answer is final"),
            }
        }
        FallbackAction::RunPrimary { .. } => panic!("the primary strategy runs once"),
    }
}

#[test]
fn answers_with_a_fallback() {
    let (answer, used) = run_fallback(
        Some(Ok(response(PackageManager::Yarn))),
        Ok(response(PackageManager::Npm)),
    );
    assert!(!used);
    assert_eq!(answer.unwrap().package_manager, PackageManager::Yarn);

    let (answer, used) = run_fallback(
        Some(Err(Error::Failed("first"))),
        Ok(response(PackageManager::Npm)),
    );
    assert!(used);
    assert_eq!(answer.unwrap().package_manager, PackageManager::Npm);

    let (answer, _) = run_fallback(
        Some(Err(Error::Failed("first"))),
        Err(Error::Failed("second")),
    );
    assert!(matches!(answer, Err(Error::Failed("second"))));

    let (answer, _) = run_fallback(Some(Err(Error::Failed("first"))), Err(Error::Unavailable));
    assert!(matches!(answer, Err(Error::Failed("first"))));

    let (answer, _) = run_fallback(Some(Err(Error::Unavailable)), Err(Error::Unavailable));
    assert!(matches!(answer, Err(Error::Unavailable)));

    let (answer, _) = run_fallback(Some(Err(Error::Unavailable)), Err(Error::Failed("second")));
    assert!(matches!(answer, Err(Error::Failed("second"))));

    let (answer, _) = run_fallback(
        Some(Ok(response(PackageManager::Pnpm))),
        Err(Error::Unavailable),
    );
    assert_eq!(answer.unwrap().package_manager, PackageManager::Pnpm);

    let (answer, used) = run_fallback(None, Err(Error::Unavailable));
    assert!(used);
    assert!(matches!(answer, Err(Error::Unavailable)));

    let (answer, used) = run_fallback(None, Ok(response(PackageManager::Bun)));
    assert!(used);
    assert_eq!(answer.unwrap().package_manager, PackageManager::Bun);
}

#[test]
fn errors_are_not_kept() {
    let mut discovery = CachingPackageDiscovery::new(());
    assert!(matches!(
        discovery.begin::<&'static str>(),
        CachingAction::RunPrimary
    ));
    assert!(matches!(
        discovery.after_primary(Err(Error::Failed("no"))),
        CachingAction::Return(Err(Error::Failed("no")))
    ));
    assert!(matches!(
        discovery.begin::<&'static str>(),
        CachingAction::RunPrimary
    ));
}

#[test]
fn an_absent_strategy_is_unavailable() {
    let mut absent: Option<u8> = None;
    assert!(matches!(
        available::<u8, &'static str>(&mut absent),
        Err(Error::Unavailable)
    ));
    let mut present: Option<u8> = Some(1);
    match available::<u8, &'static str>(&mut present) {
        Ok(strategy) => *strategy = 2,
        Err(_) => panic!("there is a strategy"),
    }
    assert_eq!(present, Some(2));
}

#[test]
fn error_messages() {
    let unavailable: Error<&'static str> = Error::Unavailable;
    assert_eq!(
        unavailable.to_string(|cause| cause.to_string()),
        "discovery unavailable"
    );
    let failed = Error::Failed("mock error");
    assert_eq!(
        failed.to_string(|cause| cause.to_string()),
        "discovery failed: mock error"
    );
}
