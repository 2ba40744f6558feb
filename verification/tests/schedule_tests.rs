use feed_relay::compose::PipelineResult;
use feed_relay::config::{
    default_db_host, default_db_port, default_expire_delay, Config, Destination, Site,
};
use feed_relay::schedule::{deliveries, Delivery, Scheduler, Turn};

fn site(chats: Vec<Destination>) -> Site {
    Site {
        id: String::from("news"),
        url: String::from("http://example.org/feed"),
        expire_delay: default_expire_delay(),
        chats,
    }
}

#[test]
fn defaults_are_those_of_a_local_store_and_one_week() {
    assert_eq!(default_db_host(), "localhost");
    assert_eq!(default_db_port(), 6379);
    assert_eq!(default_expire_delay(), 604_800);
    assert_eq!(default_expire_delay(), 7 * 24 * 60 * 60);
}

#[test]
fn configuration_holds_its_sites() {
    let config = Config {
        sites: vec![site(vec![Destination::Id(1)])],
        news_interval: 300,
        db_host: default_db_host(),
        db_port: default_db_port(),
    };
    assert_eq!(config.sites.len(), 1);
    assert_eq!(config.sites[0].expire_delay, 604_800);
    assert_eq!(config.clone(), config);
}

#[test]
fn destination_is_copied_as_it_is() {
    assert_eq!(Destination::Id(-1001).duplicate(), Destination::Id(-1001));
    assert_eq!(
        Destination::ChannelUsername(String::from("@news")).duplicate(),
        Destination::ChannelUsername(String::from("@news"))
    );
}

#[test]
fn empty_result_is_delivered_to_nobody() {
    let site = site(vec![Destination::Id(1), Destination::Id(2)]);
    let nothing = PipelineResult { message: String::new(), accepted: vec![] };
    assert_eq!(deliveries(&site, &nothing), vec![]);
    let stray = PipelineResult { message: String::from("text"), accepted: vec![] };
    assert_eq!(deliveries(&site, &stray), vec![]);
}

#[test]
fn result_is_delivered_once_to_each_destination() {
    let site = site(vec![
        Destination::Id(7),
        Destination::ChannelUsername(String::from("@news")),
        Destination::Id(-3),
    ]);
    let result = PipelineResult {
        message: String::from("<a href=\"http://1\">One</a>\n\n"),
        accepted: vec![String::from("One")],
    };
    let text = String::from("<a href=\"http://1\">One</a>\n\n");
    assert_eq!(
        deliveries(&site, &result),
        vec![
            Delivery { to: Destination::Id(7), text: text.clone(), hyperlinks: true },
            Delivery {
                to: Destination::ChannelUsername(String::from("@news")),
                text: text.clone(),
                hyperlinks: true
            },
            Delivery { to: Destination::Id(-3), text, hyperlinks: true },
        ]
    );
}

#[test]
fn site_without_destinations_gets_no_delivery() {
    let result = PipelineResult { message: String::from("m"), accepted: vec![String::from("t")] };
    assert_eq!(deliveries(&site(vec![]), &result), vec![]);
}

#[test]
fn every_site_has_its_turn_in_every_round() {
    let mut scheduler = Scheduler::new(3, 300);
    for _round in 0..3 {
        assert_eq!(scheduler.turn(), Turn::Run(0));
        assert_eq!(scheduler.turn(), Turn::Run(1));
        assert_eq!(scheduler.turn(), Turn::Run(2));
        assert_eq!(scheduler.turn(), Turn::Sleep(300));
    }
}

#[test]
fn scheduler_without_sites_only_sleeps() {
    let mut scheduler = Scheduler::new(0, 60);
    assert_eq!(scheduler.turn(), Turn::Sleep(60));
    assert_eq!(scheduler.turn(), Turn::Sleep(60));
}
