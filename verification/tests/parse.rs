//! The vendor-format parser against two captured response lines.
use rtquote::datetime::DateTime;
use rtquote::decimal::Decimal;
use rtquote::tencent::Tencent;

fn dec(mantissa: i64, scale: usize) -> Decimal {
    Decimal::new(mantissa, scale)
}

#[test]
fn test_parse_data() {
    let parse1 = "v_sz000001=\"51~平安银行~000001~15.81~15.90~15.90~821772~381881~439892~15.81~506~15.80~1439~15.79~2145~15.78~3932~15.77~687~15.82~343~15.83~2665~15.84~1449~15.85~2681~15.86~1157~~20220419161403~-0.09~-0.57~15.97~15.62~15.81/821772/1294226951~821772~129423~0.42~8.44~~15.97~15.62~2.20~3068.01~3068.08~0.94~17.49~14.31~0.79~414~15.75~8.44~8.44~~~1.33~129422.6951~0.0000~0~ ~GP-A~-4.07~-0.69~1.14~9.19~0.74~25.16~13.22~0.38~7.55~-3.18~19405522500~19405918750~2.43~-23.25~19405522500~\"";
    let parse2 = "v_sz000002=\"51~万  科Ａ~000002~20.66~20.53~20.54~1199798~620368~579430~20.66~2554~20.65~474~20.64~194~20.63~476~20.62~75~20.67~333~20.68~1136~20.69~668~20.70~6720~20.71~504~~20220419161403~0.13~0.63~20.70~19.67~20.66/1199798/2423548170~1199798~242355~1.23~10.66~~20.70~19.67~5.02~2007.65~2401.80~1.02~22.58~18.48~0.78~-5588~20.20~10.66~10.66~~~1.28~242354.8170~0.0000~0~ ~GP-A~4.55~2.43~6.05~9.55~1.96~27.83~14.43~0.00~18.40~-0.19~9717553125~11625383750~-42.55~-5.40~9717553125~\"";

    match Tencent::parse(parse1) {
        Ok(out) => {
            let rt_data = out.record;
            assert_eq!(rt_data.code, "sz000001");
            assert_eq!(rt_data.name, "平安银行");
            assert_eq!(rt_data.now, dec(1581, 2));
            assert_eq!(rt_data.close, dec(1590, 2));
            assert_eq!(rt_data.open, dec(1590, 2));
            assert_eq!(rt_data.volume, 82177200);
            assert_eq!(rt_data.bid_volume, 38188100);
            assert_eq!(rt_data.ask_volume, 43989200);
            assert_eq!(rt_data.bid1, dec(1581, 2));
            assert_eq!(rt_data.bid1_volume, 50600);
            assert_eq!(rt_data.bid2, dec(1580, 2));
            assert_eq!(rt_data.bid2_volume, 143900);
            assert_eq!(rt_data.bid3, dec(1579, 2));
            assert_eq!(rt_data.bid3_volume, 214500);
            assert_eq!(rt_data.bid4, dec(1578, 2));
            assert_eq!(rt_data.bid4_volume, 393200);
            assert_eq!(rt_data.bid5, dec(1577, 2));
            assert_eq!(rt_data.bid5_volume, 68700);
            assert_eq!(rt_data.ask1, dec(1582, 2));
            assert_eq!(rt_data.ask1_volume, 34300);
            assert_eq!(rt_data.ask2, dec(1583, 2));
            assert_eq!(rt_data.ask2_volume, 266500);
            assert_eq!(rt_data.ask3, dec(1584, 2));
            assert_eq!(rt_data.ask3_volume, 144900);
            assert_eq!(rt_data.ask4, dec(1585, 2));
            assert_eq!(rt_data.ask4_volume, 268100);
            assert_eq!(rt_data.ask5, dec(1586, 2));
            assert_eq!(rt_data.ask5_volume, 115700);
            assert_eq!(
                rt_data.datatime,
                Some(DateTime { year: 2022, month: 4, day: 19, hour: 16, minute: 14, second: 3 })
            );
            assert_eq!(rt_data.gain_amout, dec(-9, 2));
            assert_eq!(rt_data.gain_percentage, dec(-57, 2));
            assert_eq!(rt_data.high, dec(1597, 2));
            assert_eq!(rt_data.low, dec(1562, 2));
            assert_eq!(rt_data.total_value, dec(1294230000, 0));
            assert_eq!(rt_data.turnover, Some(dec(42, 2)));
            assert_eq!(rt_data.pe, Some(dec(844, 2)));
            assert_eq!(rt_data.pb, Some(dec(94, 2)));
            assert_eq!(rt_data.amplitude, dec(220, 2));
            assert_eq!(rt_data.traded_market_value, Some(dec(306801, 2)));
            assert_eq!(rt_data.market_value, Some(dec(306808, 2)));
            assert_eq!(rt_data.high_limit, dec(1749, 2));
            assert_eq!(rt_data.low_limit, dec(1431, 2));
            assert_eq!(rt_data.quantity_relative_ratio, Some(dec(79, 2)));
            assert_eq!(rt_data.entrust_different, Some(dec(414, 0)));
            assert_eq!(rt_data.average_price, Some(dec(1575, 2)));
            assert!(out.diagnostics.is_empty());
        }
        Err(e) => {
            panic!("parse error: {:?}", e);
        }
    }

    match Tencent::parse(parse2) {
        Ok(out) => {
            let rt_data = out.record;
            assert_eq!(rt_data.code, "sz000002");
            assert_eq!(rt_data.name, "万  科Ａ");
            assert_eq!(rt_data.now, dec(2066, 2));
            assert_eq!(rt_data.close, dec(2053, 2));
            assert_eq!(rt_data.open, dec(2054, 2));
            assert_eq!(rt_data.volume, 119979800);
            assert_eq!(rt_data.bid_volume, 62036800);
            assert_eq!(rt_data.ask_volume, 57943000);
            assert_eq!(rt_data.bid1, dec(2066, 2));
            assert_eq!(rt_data.bid1_volume, 255400);
            assert_eq!(rt_data.bid2, dec(2065, 2));
            assert_eq!(rt_data.bid2_volume, 47400);
            assert_eq!(rt_data.bid3, dec(2064, 2));
            assert_eq!(rt_data.bid3_volume, 19400);
            assert_eq!(rt_data.bid4, dec(2063, 2));
            assert_eq!(rt_data.bid4_volume, 47600);
            assert_eq!(rt_data.bid5, dec(2062, 2));
            assert_eq!(rt_data.bid5_volume, 7500);
            assert_eq!(rt_data.ask1, dec(2067, 2));
            assert_eq!(rt_data.ask1_volume, 33300);
            assert_eq!(rt_data.ask2, dec(2068, 2));
            assert_eq!(rt_data.ask2_volume, 113600);
            assert_eq!(rt_data.ask3, dec(2069, 2));
            assert_eq!(rt_data.ask3_volume, 66800);
            assert_eq!(rt_data.ask4, dec(2070, 2));
            assert_eq!(rt_data.ask4_volume, 672000);
            assert_eq!(rt_data.ask5, dec(2071, 2));
            assert_eq!(rt_data.ask5_volume, 50400);
            assert_eq!(
                rt_data.datatime,
                Some(DateTime { year: 2022, month: 4, day: 19, hour: 16, minute: 14, second: 3 })
            );
            assert_eq!(rt_data.gain_amout, dec(13, 2));
            assert_eq!(rt_data.gain_percentage, dec(63, 2));
            assert_eq!(rt_data.high, dec(2070, 2));
            assert_eq!(rt_data.low, dec(1967, 2));
            assert_eq!(rt_data.total_value, dec(2423550000, 0));
            assert_eq!(rt_data.turnover, Some(dec(123, 2)));
            assert_eq!(rt_data.pe, Some(dec(1066, 2)));
            assert_eq!(rt_data.pb, Some(dec(102, 2)));
            assert_eq!(rt_data.amplitude, dec(502, 2));
            assert_eq!(rt_data.traded_market_value, Some(dec(200765, 2)));
            assert_eq!(rt_data.market_value, Some(dec(240180, 2)));
            assert_eq!(rt_data.high_limit, dec(2258, 2));
            assert_eq!(rt_data.low_limit, dec(1848, 2));
            assert_eq!(rt_data.quantity_relative_ratio, Some(dec(78, 2)));
            assert_eq!(rt_data.entrust_different, Some(dec(-5588, 0)));
            assert_eq!(rt_data.average_price, Some(dec(2020, 2)));
            assert!(out.diagnostics.is_empty());
        }
        Err(e) => {
            panic!("parse error: {:?}", e);
        }
    }
}

#[test]
fn test_parse_data2() {
    let data = "v_sh518801=\"1~国泰申赎~518801~2.229~2.229~0.000~0~0~0~0.000~0~0.000~0~0.000~0~0.000~0~0.000~0~0.000~0~0.000~0~0.000~0~0.000~0~0.000~0~~20151224150221~0.000~0.00~0.000~0.000~2.230/0/0~0~0~~~~0.000~0.000~0.00~~~0.000~2.452~2.006~\"";
    match Tencent::parse(data) {
        Ok(out) => {
            let rt_data = out.record;
            assert_eq!(rt_data.code, "sh518801");
            assert_eq!(rt_data.name, "国泰申赎");
            assert_eq!(rt_data.now, dec(2229, 3));
            assert_eq!(rt_data.close, dec(2229, 3));
            assert_eq!(rt_data.open, dec(0, 0));
            assert_eq!(rt_data.volume, 0);
            assert_eq!(rt_data.bid_volume, 0);
            assert_eq!(rt_data.ask_volume, 0);
            assert_eq!(rt_data.bid1, dec(0, 0));
            assert_eq!(rt_data.bid1_volume, 0);
            assert_eq!(rt_data.bid2, dec(0, 0));
            assert_eq!(rt_data.bid2_volume, 0);
            assert_eq!(rt_data.bid3, dec(0, 0));
            assert_eq!(rt_data.bid3_volume, 0);
            assert_eq!(rt_data.bid4, dec(0, 0));
            assert_eq!(rt_data.bid4_volume, 0);
            assert_eq!(rt_data.bid5, dec(0, 0));
            assert_eq!(rt_data.bid5_volume, 0);
            assert_eq!(rt_data.ask1, dec(0, 0));
            assert_eq!(rt_data.ask1_volume, 0);
            assert_eq!(rt_data.ask2, dec(0, 0));
            assert_eq!(rt_data.ask2_volume, 0);
            assert_eq!(rt_data.ask3, dec(0, 0));
            assert_eq!(rt_data.ask3_volume, 0);
            assert_eq!(rt_data.ask4, dec(0, 0));
            assert_eq!(rt_data.ask4_volume, 0);
            assert_eq!(rt_data.ask5, dec(0, 0));
            assert_eq!(rt_data.ask5_volume, 0);
            assert_eq!(
                rt_data.datatime,
                Some(DateTime { year: 2015, month: 12, day: 24, hour: 15, minute: 2, second: 21 })
            );
            assert_eq!(rt_data.gain_amout, dec(0, 0));
            assert_eq!(rt_data.gain_percentage, dec(0, 0));
            assert_eq!(rt_data.high, dec(0, 0));
            assert_eq!(rt_data.low, dec(0, 0));
            assert_eq!(rt_data.total_value, dec(0, 0));
            assert_eq!(rt_data.turnover, None);
            assert_eq!(rt_data.pe, None);
            assert_eq!(rt_data.pb, None);
            assert_eq!(rt_data.amplitude, dec(0, 0));
            assert_eq!(rt_data.traded_market_value, None);
            assert_eq!(rt_data.market_value, None);
            assert_eq!(rt_data.high_limit, dec(2452, 3));
            assert_eq!(rt_data.low_limit, dec(2006, 3));
            assert_eq!(rt_data.quantity_relative_ratio, None);
            assert_eq!(rt_data.entrust_different, None);
            assert_eq!(rt_data.average_price, None);
        }
        Err(e) => {
            panic!("parse error: {:?}", e);
        }
    }
}
