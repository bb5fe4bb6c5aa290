use async_broadcast::TryRecvError;
use nacos_bridge::hub::{Delivery, NacosEventListener, CHANNEL_CAPACITY};
use nacos_bridge::model::{ConfigEntry, Instance, NamingEvent};

fn naming_event(service: &str, ip: &str, port: i32) -> NamingEvent {
    NamingEvent {
        service_name: service.to_string(),
        group_name: "DEFAULT_GROUP".to_string(),
        clusters: String::new(),
        instances: Some(vec![Instance::new(ip.to_string(), port, Vec::new())]),
    }
}

fn config(data_id: &str, content: &str) -> ConfigEntry {
    ConfigEntry {
        namespace: String::new(),
        data_id: data_id.to_string(),
        group: "DEFAULT_GROUP".to_string(),
        content: content.to_string(),
        content_type: "text".to_string(),
    }
}

#[test]
fn naming_event_fan_out() {
    let mut hub = NacosEventListener::new();
    let mut c1 = hub.instance_events();
    let mut c2 = hub.instance_events();
    assert_eq!(hub.event(naming_event("svcB", "1.1.1.1", 1)), Delivery::Queued);
    for c in [&mut c1, &mut c2] {
        let got = c.try_recv().unwrap();
        assert_eq!(got.service_name, "svcB");
        let list = got.instances.unwrap();
        assert_eq!(list.len(), 1);
        assert_eq!(list[0].ip, "1.1.1.1");
        assert_eq!(list[0].port, 1);
        assert_eq!(c.try_recv().unwrap_err(), TryRecvError::Empty);
    }
    let cached = hub.cached_instances(&"svcB".to_string()).unwrap();
    assert_eq!(cached.len(), 1);
    assert_eq!(cached[0].ip, "1.1.1.1");
    assert_eq!(cached[0].port, 1);
}

#[test]
fn missing_instance_list_caches_empty() {
    let mut hub = NacosEventListener::new();
    assert!(hub.cached_instances(&"svc".to_string()).is_none());
    let mut e = naming_event("svc", "1.1.1.1", 1);
    e.instances = None;
    hub.event(e);
    assert_eq!(hub.cached_instances(&"svc".to_string()).unwrap().len(), 0);
}

#[test]
fn later_naming_event_wins_in_cache() {
    let mut hub = NacosEventListener::new();
    hub.event(naming_event("svc", "1.1.1.1", 1));
    hub.event(naming_event("svc", "2.2.2.2", 2));
    hub.event(naming_event("other", "3.3.3.3", 3));
    let cached = hub.cached_instances(&"svc".to_string()).unwrap();
    assert_eq!(cached.len(), 1);
    assert_eq!(cached[0].ip, "2.2.2.2");
    assert_eq!(cached[0].port, 2);
}

#[test]
fn config_last_write_wins() {
    let mut hub = NacosEventListener::new();
    let mut c = hub.config_events();
    hub.notify(config("cfg", "a"));
    hub.notify(config("cfg", "b"));
    assert_eq!(hub.cached_config(&"cfg".to_string()).unwrap().content, "b");
    assert_eq!(c.try_recv().unwrap().content, "a");
    assert_eq!(c.try_recv().unwrap().content, "b");
    assert!(hub.cached_config(&"nope".to_string()).is_none());
}

#[test]
fn overflow_drops_oldest() {
    let mut hub = NacosEventListener::new();
    assert_eq!(CHANNEL_CAPACITY, 100);
    for i in 0..150 {
        let d = hub.event(naming_event("svc", &format!("10.0.0.{}", i), i));
        if i < 100 {
            assert_eq!(d, Delivery::Queued);
        } else {
            assert_eq!(d, Delivery::DisplacedOldest);
        }
    }
    let cached = hub.cached_instances(&"svc".to_string()).unwrap();
    assert_eq!(cached[0].port, 149);
    let mut late = hub.instance_events();
    assert_eq!(late.try_recv().unwrap_err(), TryRecvError::Empty);
    hub.event(naming_event("svc", "9.9.9.9", 150));
    assert_eq!(late.try_recv().unwrap().instances.unwrap()[0].port, 150);
}

#[test]
fn full_channel_callback_completes_and_consumer_sees_newest() {
    let mut hub = NacosEventListener::new();
    let mut c = hub.instance_events();
    for i in 0..101 {
        hub.event(naming_event("svc", "1.1.1.1", i));
    }
    assert_eq!(c.try_recv().unwrap_err(), TryRecvError::Overflowed(1));
    assert_eq!(c.try_recv().unwrap().instances.unwrap()[0].port, 1);
}
