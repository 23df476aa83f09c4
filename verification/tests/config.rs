use mpmc::config::{DataSize, TestPlan};
use mpmc::{run_queue_test, QueueConf, QueueType, TEST_QUEUE_SIZE};

fn args(v: &[&str]) -> Vec<String> {
    v.iter().map(|s| s.to_string()).collect()
}

#[test]
fn conf_reads_all_settings() {
    let c = QueueConf::new(&args(&["prog", "128", "+4", "2", "-1", "mympmc2", "extra"])).unwrap();
    assert_eq!(c.data_size, 128);
    assert_eq!(c.n_sender, 4);
    assert_eq!(c.n_receiver, 2);
    assert_eq!(c.duration, -1);
    assert_eq!(c.queue_type, QueueType::MyMPMC2);
}

#[test]
fn conf_queue_names() {
    let names = [
        ("MYFQ", QueueType::MyFastQueue),
        ("myfq", QueueType::MyFastQueue),
        ("MyMpmc1", QueueType::MyMPMC1),
        ("mpsc", QueueType::StdMpsc),
        ("MPSCQ", QueueType::StdMpscQ),
    ];
    for (n, t) in names.iter() {
        let c = QueueConf::new(&args(&["p", "8", "1", "1", "1", n])).unwrap();
        assert_eq!(c.queue_type, *t);
    }
    assert_eq!(
        QueueConf::new(&args(&["p", "8", "1", "1", "1", "fq"])).err(),
        Some("invalid queue type.")
    );
}

#[test]
fn conf_missing_arguments() {
    assert_eq!(QueueConf::new(&args(&[])).err(), Some("Didn't get a 'data size'"));
    assert_eq!(QueueConf::new(&args(&["p"])).err(), Some("Didn't get a 'data size'"));
    assert_eq!(QueueConf::new(&args(&["p", "8"])).err(), Some("Didn't get a 'sender count'"));
    assert_eq!(QueueConf::new(&args(&["p", "8", "1"])).err(), Some("Didn't get a 'receiver count'"));
    assert_eq!(
        QueueConf::new(&args(&["p", "8", "1", "1"])).err(),
        Some("Didn't get a 'test duration in seconds'")
    );
    assert_eq!(
        QueueConf::new(&args(&["p", "8", "1", "1", "1"])).err(),
        Some("Didn't get test queue type")
    );
}

#[test]
fn conf_bad_numbers() {
    assert_eq!(
        QueueConf::new(&args(&["p", "x", "1", "1", "1", "myfq"])).err(),
        Some("Invalid args. Give a integer for data size")
    );
    assert_eq!(
        QueueConf::new(&args(&["p", "8", " 1", "1", "1", "myfq"])).err(),
        Some("Invalid args. Give a integer for sender count")
    );
    assert_eq!(
        QueueConf::new(&args(&["p", "8", "1", "2147483648", "1", "myfq"])).err(),
        Some("Invalid args. Give a integer for receiver count")
    );
    assert_eq!(
        QueueConf::new(&args(&["p", "8", "1", "1", "-", "myfq"])).err(),
        Some("Invalid args. Give a integer for duration in seconds")
    );
    let c = QueueConf::new(&args(&["p", "-2147483648", "1", "1", "1", "myfq"])).unwrap();
    assert_eq!(c.data_size, i32::MIN);
}

fn conf(data_size: i32, queue_type: QueueType, n_receiver: i32) -> QueueConf {
    QueueConf { queue_type, data_size, n_sender: 2, n_receiver, duration: 3 }
}

fn data_of(r: Result<TestPlan, &'static str>) -> DataSize {
    r.unwrap().data
}

#[test]
fn run_plan_payload_sizes() {
    let q = QueueType::MyFastQueue;
    assert_eq!(data_of(run_queue_test(conf(-5, q, 1))), DataSize::S8);
    assert_eq!(data_of(run_queue_test(conf(8, q, 1))), DataSize::S8);
    assert_eq!(data_of(run_queue_test(conf(9, q, 1))), DataSize::S128);
    assert_eq!(data_of(run_queue_test(conf(128, q, 1))), DataSize::S128);
    assert_eq!(data_of(run_queue_test(conf(129, q, 1))), DataSize::S256);
    assert_eq!(data_of(run_queue_test(conf(512, q, 1))), DataSize::S512);
    assert_eq!(data_of(run_queue_test(conf(1000, q, 1))), DataSize::S1024);
    assert_eq!(data_of(run_queue_test(conf(2048, q, 1))), DataSize::S2048);
    assert_eq!(run_queue_test(conf(2049, q, 1)).err(), Some("data size is too big"));
}

#[test]
fn run_plan_keeps_settings() {
    let p = run_queue_test(conf(16, QueueType::MyMPMC1, 7)).unwrap();
    assert_eq!(p.config.queue_type, QueueType::MyMPMC1);
    assert_eq!(p.config.n_sender, 2);
    assert_eq!(p.config.n_receiver, 7);
    assert_eq!(p.config.duration, 3);
    assert_eq!(TEST_QUEUE_SIZE, 100000000);
}

#[test]
fn run_plan_single_consumer_queue() {
    assert_eq!(
        run_queue_test(conf(8, QueueType::StdMpscQ, 2)).err(),
        Some("MPSC queue does not support multiple consumers")
    );
    assert!(run_queue_test(conf(8, QueueType::StdMpscQ, 1)).is_ok());
    assert!(run_queue_test(conf(8, QueueType::StdMpsc, 2)).is_ok());
    assert_eq!(run_queue_test(conf(9000, QueueType::StdMpscQ, 2)).err(), Some("data size is too big"));
}
