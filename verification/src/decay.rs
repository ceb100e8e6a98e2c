//! The decay of the largest counter, followed step by step: the proof
//! that no counter outlasts `DECAY_STEPS` sweeps.

use crate::usage::{decayed, decayed_n, lemma_decay_steps_add, DECAY_STEPS};
use vstd::prelude::*;

verus! {

/// Twenty decay steps on the largest counter, from step 0 on.
proof fn lemma_decay_run_0()
    ensures
        decayed_n(18446744073709551615, 20) == 2242693432570017163,
{
    assert(decayed_n(2242693432570017163, 0) == 2242693432570017163);
    assert(decayed(2491881591744463515) == 2242693432570017163);
    assert(decayed_n(2491881591744463515, 1) == 2242693432570017163);
    assert(decayed(2768757324160515017) == 2491881591744463515);
    assert(decayed_n(2768757324160515017, 2) == 2242693432570017163);
    assert(decayed(3076397026845016686) == 2768757324160515017);
    assert(decayed_n(3076397026845016686, 3) == 2242693432570017163);
    assert(decayed(3418218918716685207) == 3076397026845016686);
    assert(decayed_n(3418218918716685207, 4) == 2242693432570017163);
    assert(decayed(3798021020796316897) == 3418218918716685207);
    assert(decayed_n(3798021020796316897, 5) == 2242693432570017163);
    assert(decayed(4220023356440352108) == 3798021020796316897);
    assert(decayed_n(4220023356440352108, 6) == 2242693432570017163);
    assert(decayed(4688914840489280121) == 4220023356440352108);
    assert(decayed_n(4688914840489280121, 7) == 2242693432570017163);
    assert(decayed(5209905378321422357) == 4688914840489280121);
    assert(decayed_n(5209905378321422357, 8) == 2242693432570017163);
    assert(decayed(5788783753690469286) == 5209905378321422357);
    assert(decayed_n(5788783753690469286, 9) == 2242693432570017163);
    assert(decayed(6431981948544965874) == 5788783753690469286);
    assert(decayed_n(6431981948544965874, 10) == 2242693432570017163);
    assert(decayed(7146646609494406527) == 6431981948544965874);
    assert(decayed_n(7146646609494406527, 11) == 2242693432570017163);
    assert(decayed(7940718454993785031) == 7146646609494406527);
    assert(decayed_n(7940718454993785031, 12) == 2242693432570017163);
    assert(decayed(8823020505548650035) == 7940718454993785031);
    assert(decayed_n(8823020505548650035, 13) == 2242693432570017163);
    assert(decayed(9803356117276277817) == 8823020505548650035);
    assert(decayed_n(9803356117276277817, 14) == 2242693432570017163);
    assert(decayed(10892617908084753131) == 9803356117276277817);
    assert(decayed_n(10892617908084753131, 15) == 2242693432570017163);
    assert(decayed(12102908786760836813) == 10892617908084753131);
    assert(decayed_n(12102908786760836813, 16) == 2242693432570017163);
    assert(decayed(13447676429734263126) == 12102908786760836813);
    assert(decayed_n(13447676429734263126, 17) == 2242693432570017163);
    assert(decayed(14941862699704736807) == 13447676429734263126);
    assert(decayed_n(14941862699704736807, 18) == 2242693432570017163);
    assert(decayed(16602069666338596453) == 14941862699704736807);
    assert(decayed_n(16602069666338596453, 19) == 2242693432570017163);
    assert(decayed(18446744073709551615) == 16602069666338596453);
    assert(decayed_n(18446744073709551615, 20) == 2242693432570017163);
}

/// Twenty decay steps on the largest counter, from step 20 on.
proof fn lemma_decay_run_1()
    ensures
        decayed_n(2242693432570017163, 20) == 272659164804103166,
{
    assert(decayed_n(272659164804103166, 0) == 272659164804103166);
    assert(decayed(302954627560114629) == 272659164804103166);
    assert(decayed_n(302954627560114629, 1) == 272659164804103166);
    assert(decayed(336616252844571811) == 302954627560114629);
    assert(decayed_n(336616252844571811, 2) == 272659164804103166);
    assert(decayed(374018058716190902) == 336616252844571811);
    assert(decayed_n(374018058716190902, 3) == 272659164804103166);
    assert(decayed(415575620795767670) == 374018058716190902);
    assert(decayed_n(415575620795767670, 4) == 272659164804103166);
    assert(decayed(461750689773075189) == 415575620795767670);
    assert(decayed_n(461750689773075189, 5) == 272659164804103166);
    assert(decayed(513056321970083544) == 461750689773075189);
    assert(decayed_n(513056321970083544, 6) == 272659164804103166);
    assert(decayed(570062579966759494) == 513056321970083544);
    assert(decayed_n(570062579966759494, 7) == 272659164804103166);
    assert(decayed(633402866629732772) == 570062579966759494);
    assert(decayed_n(633402866629732772, 8) == 272659164804103166);
    assert(decayed(703780962921925303) == 633402866629732772);
    assert(decayed_n(703780962921925303, 9) == 272659164804103166);
    assert(decayed(781978847691028115) == 703780962921925303);
    assert(decayed_n(781978847691028115, 10) == 272659164804103166);
    assert(decayed(868865386323364573) == 781978847691028115);
    assert(decayed_n(868865386323364573, 11) == 272659164804103166);
    assert(decayed(965405984803738415) == 868865386323364573);
    assert(decayed_n(965405984803738415, 12) == 272659164804103166);
    assert(decayed(1072673316448598239) == 965405984803738415);
    assert(decayed_n(1072673316448598239, 13) == 272659164804103166);
    assert(decayed(1191859240498442488) == 1072673316448598239);
    assert(decayed_n(1191859240498442488, 14) == 272659164804103166);
    assert(decayed(1324288044998269432) == 1191859240498442488);
    assert(decayed_n(1324288044998269432, 15) == 272659164804103166);
    assert(decayed(1471431161109188258) == 1324288044998269432);
    assert(decayed_n(1471431161109188258, 16) == 272659164804103166);
    assert(decayed(1634923512343542510) == 1471431161109188258);
    assert(decayed_n(1634923512343542510, 17) == 272659164804103166);
    assert(decayed(1816581680381713901) == 1634923512343542510);
    assert(decayed_n(1816581680381713901, 18) == 272659164804103166);
    assert(decayed(2018424089313015446) == 1816581680381713901);
    assert(decayed_n(2018424089313015446, 19) == 272659164804103166);
    assert(decayed(2242693432570017163) == 2018424089313015446);
    assert(decayed_n(2242693432570017163, 20) == 272659164804103166);
}

/// Twenty decay steps on the largest counter, from step 40 on.
proof fn lemma_decay_run_2()
    ensures
        decayed_n(272659164804103166, 20) == 33148989100341553,
{
    assert(decayed_n(33148989100341553, 0) == 33148989100341553);
    assert(decayed(36832210111490615) == 33148989100341553);
    assert(decayed_n(36832210111490615, 1) == 33148989100341553);
    assert(decayed(40924677901656239) == 36832210111490615);
    assert(decayed_n(40924677901656239, 2) == 33148989100341553);
    assert(decayed(45471864335173600) == 40924677901656239);
    assert(decayed_n(45471864335173600, 3) == 33148989100341553);
    assert(decayed(50524293705748445) == 45471864335173600);
    assert(decayed_n(50524293705748445, 4) == 33148989100341553);
    assert(decayed(56138104117498273) == 50524293705748445);
    assert(decayed_n(56138104117498273, 5) == 33148989100341553);
    assert(decayed(62375671241664748) == 56138104117498273);
    assert(decayed_n(62375671241664748, 6) == 33148989100341553);
    assert(decayed(69306301379627498) == 62375671241664748);
    assert(decayed_n(69306301379627498, 7) == 33148989100341553);
    assert(decayed(77007001532919443) == 69306301379627498);
    assert(decayed_n(77007001532919443, 8) == 33148989100341553);
    assert(decayed(85563335036577159) == 77007001532919443);
    assert(decayed_n(85563335036577159, 9) == 33148989100341553);
    assert(decayed(95070372262863511) == 85563335036577159);
    assert(decayed_n(95070372262863511, 10) == 33148989100341553);
    assert(decayed(105633746958737235) == 95070372262863511);
    assert(decayed_n(105633746958737235, 11) == 33148989100341553);
    assert(decayed(117370829954152484) == 105633746958737235);
    assert(decayed_n(117370829954152484, 12) == 33148989100341553);
    assert(decayed(130412033282391650) == 117370829954152484);
    assert(decayed_n(130412033282391650, 13) == 33148989100341553);
    assert(decayed(144902259202657389) == 130412033282391650);
    assert(decayed_n(144902259202657389, 14) == 33148989100341553);
    assert(decayed(161002510225174877) == 144902259202657389);
    assert(decayed_n(161002510225174877, 15) == 33148989100341553);
    assert(decayed(178891678027972086) == 161002510225174877);
    assert(decayed_n(178891678027972086, 16) == 33148989100341553);
    assert(decayed(198768531142191207) == 178891678027972086);
    assert(decayed_n(198768531142191207, 17) == 33148989100341553);
    assert(decayed(220853923491323564) == 198768531142191207);
    assert(decayed_n(220853923491323564, 18) == 33148989100341553);
    assert(decayed(245393248323692849) == 220853923491323564);
    assert(decayed_n(245393248323692849, 19) == 33148989100341553);
    assert(decayed(272659164804103166) == 245393248323692849);
    assert(decayed_n(272659164804103166, 20) == 33148989100341553);
}

/// Twenty decay steps on the largest counter, from step 60 on.
proof fn lemma_decay_run_3()
    ensures
        decayed_n(33148989100341553, 20) == 4030143197878765,
{
    assert(decayed_n(4030143197878765, 0) == 4030143197878765);
    assert(decayed(4477936886531962) == 4030143197878765);
    assert(decayed_n(4477936886531962, 1) == 4030143197878765);
    assert(decayed(4975485429479958) == 4477936886531962);
    assert(decayed_n(4975485429479958, 2) == 4030143197878765);
    assert(decayed(5528317143866621) == 4975485429479958);
    assert(decayed_n(5528317143866621, 3) == 4030143197878765);
    assert(decayed(6142574604296246) == 5528317143866621);
    assert(decayed_n(6142574604296246, 4) == 4030143197878765);
    assert(decayed(6825082893662496) == 6142574604296246);
    assert(decayed_n(6825082893662496, 5) == 4030143197878765);
    assert(decayed(7583425437402774) == 6825082893662496);
    assert(decayed_n(7583425437402774, 6) == 4030143197878765);
    assert(decayed(8426028263780861) == 7583425437402774);
    assert(decayed_n(8426028263780861, 7) == 4030143197878765);
    assert(decayed(9362253626423180) == 8426028263780861);
    assert(decayed_n(9362253626423180, 8) == 4030143197878765);
    assert(decayed(10402504029359090) == 9362253626423180);
    assert(decayed_n(10402504029359090, 9) == 4030143197878765);
    assert(decayed(11558337810398990) == 10402504029359090);
    assert(decayed_n(11558337810398990, 10) == 4030143197878765);
    assert(decayed(12842597567109990) == 11558337810398990);
    assert(decayed_n(12842597567109990, 11) == 4030143197878765);
    assert(decayed(14269552852344434) == 12842597567109990);
    assert(decayed_n(14269552852344434, 12) == 4030143197878765);
    assert(decayed(15855058724827150) == 14269552852344434);
    assert(decayed_n(15855058724827150, 13) == 4030143197878765);
    assert(decayed(17616731916474612) == 15855058724827150);
    assert(decayed_n(17616731916474612, 14) == 4030143197878765);
    assert(decayed(19574146573860681) == 17616731916474612);
    assert(decayed_n(19574146573860681, 15) == 4030143197878765);
    assert(decayed(21749051748734091) == 19574146573860681);
    assert(decayed_n(21749051748734091, 16) == 4030143197878765);
    assert(decayed(24165613054148991) == 21749051748734091);
    assert(decayed_n(24165613054148991, 17) == 4030143197878765);
    assert(decayed(26850681171276657) == 24165613054148991);
    assert(decayed_n(26850681171276657, 18) == 4030143197878765);
    assert(decayed(29834090190307397) == 26850681171276657);
    assert(decayed_n(29834090190307397, 19) == 4030143197878765);
    assert(decayed(33148989100341553) == 29834090190307397);
    assert(decayed_n(33148989100341553, 20) == 4030143197878765);
}

/// Twenty decay steps on the largest counter, from step 80 on.
proof fn lemma_decay_run_4()
    ensures
        decayed_n(4030143197878765, 20) == 489971327519033,
{
    assert(decayed_n(489971327519033, 0) == 489971327519033);
    assert(decayed(544412586132260) == 489971327519033);
    assert(decayed_n(544412586132260, 1) == 489971327519033);
    assert(decayed(604902873480290) == 544412586132260);
    assert(decayed_n(604902873480290, 2) == 489971327519033);
    assert(decayed(672114303866990) == 604902873480290);
    assert(decayed_n(672114303866990, 3) == 489971327519033);
    assert(decayed(746793670963323) == 672114303866990);
    assert(decayed_n(746793670963323, 4) == 489971327519033);
    assert(decayed(829770745514804) == 746793670963323);
    assert(decayed_n(829770745514804, 5) == 489971327519033);
    assert(decayed(921967495016449) == 829770745514804);
    assert(decayed_n(921967495016449, 6) == 489971327519033);
    assert(decayed(1024408327796055) == 921967495016449);
    assert(decayed_n(1024408327796055, 7) == 489971327519033);
    assert(decayed(1138231475328951) == 1024408327796055);
    assert(decayed_n(1138231475328951, 8) == 489971327519033);
    assert(decayed(1264701639254391) == 1138231475328951);
    assert(decayed_n(1264701639254391, 9) == 489971327519033);
    assert(decayed(1405224043615991) == 1264701639254391);
    assert(decayed_n(1405224043615991, 10) == 489971327519033);
    assert(decayed(1561360048462213) == 1405224043615991);
    assert(decayed_n(1561360048462213, 11) == 489971327519033);
    assert(decayed(1734844498291348) == 1561360048462213);
    assert(decayed_n(1734844498291348, 12) == 489971327519033);
    assert(decayed(1927604998101498) == 1734844498291348);
    assert(decayed_n(1927604998101498, 13) == 489971327519033);
    assert(decayed(2141783331223887) == 1927604998101498);
    assert(decayed_n(2141783331223887, 14) == 489971327519033);
    assert(decayed(2379759256915431) == 2141783331223887);
    assert(decayed_n(2379759256915431, 15) == 489971327519033);
    assert(decayed(2644176952128257) == 2379759256915431);
    assert(decayed_n(2644176952128257, 16) == 489971327519033);
    assert(decayed(2937974391253619) == 2644176952128257);
    assert(decayed_n(2937974391253619, 17) == 489971327519033);
    assert(decayed(3264415990281799) == 2937974391253619);
    assert(decayed_n(3264415990281799, 18) == 489971327519033);
    assert(decayed(3627128878090888) == 3264415990281799);
    assert(decayed_n(3627128878090888, 19) == 489971327519033);
    assert(decayed(4030143197878765) == 3627128878090888);
    assert(decayed_n(4030143197878765, 20) == 489971327519033);
}

/// Twenty decay steps on the largest counter, from step 100 on.
proof fn lemma_decay_run_5()
    ensures
        decayed_n(489971327519033, 20) == 59569074845060,
{
    assert(decayed_n(59569074845060, 0) == 59569074845060);
    assert(decayed(66187860938956) == 59569074845060);
    assert(decayed_n(66187860938956, 1) == 59569074845060);
    assert(decayed(73542067709952) == 66187860938956);
    assert(decayed_n(73542067709952, 2) == 59569074845060);
    assert(decayed(81713408566614) == 73542067709952);
    assert(decayed_n(81713408566614, 3) == 59569074845060);
    assert(decayed(90792676185127) == 81713408566614);
    assert(decayed_n(90792676185127, 4) == 59569074845060);
    assert(decayed(100880751316808) == 90792676185127);
    assert(decayed_n(100880751316808, 5) == 59569074845060);
    assert(decayed(112089723685343) == 100880751316808);
    assert(decayed_n(112089723685343, 6) == 59569074845060);
    assert(decayed(124544137428159) == 112089723685343);
    assert(decayed_n(124544137428159, 7) == 59569074845060);
    assert(decayed(138382374920177) == 124544137428159);
    assert(decayed_n(138382374920177, 8) == 59569074845060);
    assert(decayed(153758194355753) == 138382374920177);
    assert(decayed_n(153758194355753, 9) == 59569074845060);
    assert(decayed(170842438173059) == 153758194355753);
    assert(decayed_n(170842438173059, 10) == 59569074845060);
    assert(decayed(189824931303399) == 170842438173059);
    assert(decayed_n(189824931303399, 11) == 59569074845060);
    assert(decayed(210916590337111) == 189824931303399);
    assert(decayed_n(210916590337111, 12) == 59569074845060);
    assert(decayed(234351767041235) == 210916590337111);
    assert(decayed_n(234351767041235, 13) == 59569074845060);
    assert(decayed(260390852268040) == 234351767041235);
    assert(decayed_n(260390852268040, 14) == 59569074845060);
    assert(decayed(289323169186712) == 260390852268040);
    assert(decayed_n(289323169186712, 15) == 59569074845060);
    assert(decayed(321470187985236) == 289323169186712);
    assert(decayed_n(321470187985236, 16) == 59569074845060);
    assert(decayed(357189097761374) == 321470187985236);
    assert(decayed_n(357189097761374, 17) == 59569074845060);
    assert(decayed(396876775290416) == 357189097761374);
    assert(decayed_n(396876775290416, 18) == 59569074845060);
    assert(decayed(440974194767129) == 396876775290416);
    assert(decayed_n(440974194767129, 19) == 59569074845060);
    assert(decayed(489971327519033) == 440974194767129);
    assert(decayed_n(489971327519033, 20) == 59569074845060);
}

/// Twenty decay steps on the largest counter, from step 120 on.
proof fn lemma_decay_run_6()
    ensures
        decayed_n(59569074845060, 20) == 7242208836713,
{
    assert(decayed_n(7242208836713, 0) == 7242208836713);
    assert(decayed(8046898707460) == 7242208836713);
    assert(decayed_n(8046898707460, 1) == 7242208836713);
    assert(decayed(8940998563845) == 8046898707460);
    assert(decayed_n(8940998563845, 2) == 7242208836713);
    assert(decayed(9934442848717) == 8940998563845);
    assert(decayed_n(9934442848717, 3) == 7242208836713);
    assert(decayed(11038269831908) == 9934442848717);
    assert(decayed_n(11038269831908, 4) == 7242208836713);
    assert(decayed(12264744257676) == 11038269831908);
    assert(decayed_n(12264744257676, 5) == 7242208836713);
    assert(decayed(13627493619641) == 12264744257676);
    assert(decayed_n(13627493619641, 6) == 7242208836713);
    assert(decayed(15141659577379) == 13627493619641);
    assert(decayed_n(15141659577379, 7) == 7242208836713);
    assert(decayed(16824066197088) == 15141659577379);
    assert(decayed_n(16824066197088, 8) == 7242208836713);
    assert(decayed(18693406885654) == 16824066197088);
    assert(decayed_n(18693406885654, 9) == 7242208836713);
    assert(decayed(20770452095172) == 18693406885654);
    assert(decayed_n(20770452095172, 10) == 7242208836713);
    assert(decayed(23078280105747) == 20770452095172);
    assert(decayed_n(23078280105747, 11) == 7242208836713);
    assert(decayed(25642533450831) == 23078280105747);
    assert(decayed_n(25642533450831, 12) == 7242208836713);
    assert(decayed(28491703834257) == 25642533450831);
    assert(decayed_n(28491703834257, 13) == 7242208836713);
    assert(decayed(31657448704731) == 28491703834257);
    assert(decayed_n(31657448704731, 14) == 7242208836713);
    assert(decayed(35174943005257) == 31657448704731);
    assert(decayed_n(35174943005257, 15) == 7242208836713);
    assert(decayed(39083270005842) == 35174943005257);
    assert(decayed_n(39083270005842, 16) == 7242208836713);
    assert(decayed(43425855562047) == 39083270005842);
    assert(decayed_n(43425855562047, 17) == 7242208836713);
    assert(decayed(48250950624497) == 43425855562047);
    assert(decayed_n(48250950624497, 18) == 7242208836713);
    assert(decayed(53612167360553) == 48250950624497);
    assert(decayed_n(53612167360553, 19) == 7242208836713);
    assert(decayed(59569074845060) == 53612167360553);
    assert(decayed_n(59569074845060, 20) == 7242208836713);
}

/// Twenty decay steps on the largest counter, from step 140 on.
proof fn lemma_decay_run_7()
    ensures
        decayed_n(7242208836713, 20) == 880483522209,
{
    assert(decayed_n(880483522209, 0) == 880483522209);
    assert(decayed(978315024677) == 880483522209);
    assert(decayed_n(978315024677, 1) == 880483522209);
    assert(decayed(1087016694086) == 978315024677);
    assert(decayed_n(1087016694086, 2) == 880483522209);
    assert(decayed(1207796326763) == 1087016694086);
    assert(decayed_n(1207796326763, 3) == 880483522209);
    assert(decayed(1341995918626) == 1207796326763);
    assert(decayed_n(1341995918626, 4) == 880483522209);
    assert(decayed(1491106576252) == 1341995918626);
    assert(decayed_n(1491106576252, 5) == 880483522209);
    assert(decayed(1656785084725) == 1491106576252);
    assert(decayed_n(1656785084725, 6) == 880483522209);
    assert(decayed(1840872316362) == 1656785084725);
    assert(decayed_n(1840872316362, 7) == 880483522209);
    assert(decayed(2045413684847) == 1840872316362);
    assert(decayed_n(2045413684847, 8) == 880483522209);
    assert(decayed(2272681872053) == 2045413684847);
    assert(decayed_n(2272681872053, 9) == 880483522209);
    assert(decayed(2525202080060) == 2272681872053);
    assert(decayed_n(2525202080060, 10) == 880483522209);
    assert(decayed(2805780088956) == 2525202080060);
    assert(decayed_n(2805780088956, 11) == 880483522209);
    assert(decayed(3117533432174) == 2805780088956);
    assert(decayed_n(3117533432174, 12) == 880483522209);
    assert(decayed(3463926035750) == 3117533432174);
    assert(decayed_n(3463926035750, 13) == 880483522209);
    assert(decayed(3848806706389) == 3463926035750);
    assert(decayed_n(3848806706389, 14) == 880483522209);
    assert(decayed(4276451895988) == 3848806706389);
    assert(decayed_n(4276451895988, 15) == 880483522209);
    assert(decayed(4751613217765) == 4276451895988);
    assert(decayed_n(4751613217765, 16) == 880483522209);
    assert(decayed(5279570241962) == 4751613217765);
    assert(decayed_n(5279570241962, 17) == 880483522209);
    assert(decayed(5866189157736) == 5279570241962);
    assert(decayed_n(5866189157736, 18) == 880483522209);
    assert(decayed(6517987953041) == 5866189157736);
    assert(decayed_n(6517987953041, 19) == 880483522209);
    assert(decayed(7242208836713) == 6517987953041);
    assert(decayed_n(7242208836713, 20) == 880483522209);
}

/// Twenty decay steps on the largest counter, from step 160 on.
proof fn lemma_decay_run_8()
    ensures
        decayed_n(880483522209, 20) == 107046241047,
{
    assert(decayed_n(107046241047, 0) == 107046241047);
    assert(decayed(118940267831) == 107046241047);
    assert(decayed_n(118940267831, 1) == 107046241047);
    assert(decayed(132155853146) == 118940267831);
    assert(decayed_n(132155853146, 2) == 107046241047);
    assert(decayed(146839836830) == 132155853146);
    assert(decayed_n(146839836830, 3) == 107046241047);
    assert(decayed(163155374256) == 146839836830);
    assert(decayed_n(163155374256, 4) == 107046241047);
    assert(decayed(181283749174) == 163155374256);
    assert(decayed_n(181283749174, 5) == 107046241047);
    assert(decayed(201426387972) == 181283749174);
    assert(decayed_n(201426387972, 6) == 107046241047);
    assert(decayed(223807097747) == 201426387972);
    assert(decayed_n(223807097747, 7) == 107046241047);
    assert(decayed(248674553053) == 223807097747);
    assert(decayed_n(248674553053, 8) == 107046241047);
    assert(decayed(276305058948) == 248674553053);
    assert(decayed_n(276305058948, 9) == 107046241047);
    assert(decayed(307005621054) == 276305058948);
    assert(decayed_n(307005621054, 10) == 107046241047);
    assert(decayed(341117356727) == 307005621054);
    assert(decayed_n(341117356727, 11) == 107046241047);
    assert(decayed(379019285253) == 341117356727);
    assert(decayed_n(379019285253, 12) == 107046241047);
    assert(decayed(421132539171) == 379019285253);
    assert(decayed_n(421132539171, 13) == 107046241047);
    assert(decayed(467925043524) == 421132539171);
    assert(decayed_n(467925043524, 14) == 107046241047);
    assert(decayed(519916715027) == 467925043524);
    assert(decayed_n(519916715027, 15) == 107046241047);
    assert(decayed(577685238920) == 519916715027);
    assert(decayed_n(577685238920, 16) == 107046241047);
    assert(decayed(641872487690) == 577685238920);
    assert(decayed_n(641872487690, 17) == 107046241047);
    assert(decayed(713191652989) == 641872487690);
    assert(decayed_n(713191652989, 18) == 107046241047);
    assert(decayed(792435169988) == 713191652989);
    assert(decayed_n(792435169988, 19) == 107046241047);
    assert(decayed(880483522209) == 792435169988);
    assert(decayed_n(880483522209, 20) == 107046241047);
}

/// Twenty decay steps on the largest counter, from step 180 on.
proof fn lemma_decay_run_9()
    ensures
        decayed_n(107046241047, 20) == 13014323869,
{
    assert(decayed_n(13014323869, 0) == 13014323869);
    assert(decayed(14460359855) == 13014323869);
    assert(decayed_n(14460359855, 1) == 13014323869);
    assert(decayed(16067066506) == 14460359855);
    assert(decayed_n(16067066506, 2) == 13014323869);
    assert(decayed(17852296118) == 16067066506);
    assert(decayed_n(17852296118, 3) == 13014323869);
    assert(decayed(19835884576) == 17852296118);
    assert(decayed_n(19835884576, 4) == 13014323869);
    assert(decayed(22039871752) == 19835884576);
    assert(decayed_n(22039871752, 5) == 13014323869);
    assert(decayed(24488746392) == 22039871752);
    assert(decayed_n(24488746392, 6) == 13014323869);
    assert(decayed(27209718214) == 24488746392);
    assert(decayed_n(27209718214, 7) == 13014323869);
    assert(decayed(30233020238) == 27209718214);
    assert(decayed_n(30233020238, 8) == 13014323869);
    assert(decayed(33592244709) == 30233020238);
    assert(decayed_n(33592244709, 9) == 13014323869);
    assert(decayed(37324716344) == 33592244709);
    assert(decayed_n(37324716344, 10) == 13014323869);
    assert(decayed(41471907049) == 37324716344);
    assert(decayed_n(41471907049, 11) == 13014323869);
    assert(decayed(46079896722) == 41471907049);
    assert(decayed_n(46079896722, 12) == 13014323869);
    assert(decayed(51199885247) == 46079896722);
    assert(decayed_n(51199885247, 13) == 13014323869);
    assert(decayed(56888761386) == 51199885247);
    assert(decayed_n(56888761386, 14) == 13014323869);
    assert(decayed(63209734874) == 56888761386);
    assert(decayed_n(63209734874, 15) == 13014323869);
    assert(decayed(70233038749) == 63209734874);
    assert(decayed_n(70233038749, 16) == 13014323869);
    assert(decayed(78036709722) == 70233038749);
    assert(decayed_n(78036709722, 17) == 13014323869);
    assert(decayed(86707455247) == 78036709722);
    assert(decayed_n(86707455247, 18) == 13014323869);
    assert(decayed(96341616942) == 86707455247);
    assert(decayed_n(96341616942, 19) == 13014323869);
    assert(decayed(107046241047) == 96341616942);
    assert(decayed_n(107046241047, 20) == 13014323869);
}

/// Twenty decay steps on the largest counter, from step 200 on.
proof fn lemma_decay_run_10()
    ensures
        decayed_n(13014323869, 20) == 1582237952,
{
    assert(decayed_n(1582237952, 0) == 1582237952);
    assert(decayed(1758042170) == 1582237952);
    assert(decayed_n(1758042170, 1) == 1582237952);
    assert(decayed(1953380190) == 1758042170);
    assert(decayed_n(1953380190, 2) == 1582237952);
    assert(decayed(2170422434) == 1953380190);
    assert(decayed_n(2170422434, 3) == 1582237952);
    assert(decayed(2411580483) == 2170422434);
    assert(decayed_n(2411580483, 4) == 1582237952);
    assert(decayed(2679533871) == 2411580483);
    assert(decayed_n(2679533871, 5) == 1582237952);
    assert(decayed(2977259857) == 2679533871);
    assert(decayed_n(2977259857, 6) == 1582237952);
    assert(decayed(3308066508) == 2977259857);
    assert(decayed_n(3308066508, 7) == 1582237952);
    assert(decayed(3675629454) == 3308066508);
    assert(decayed_n(3675629454, 8) == 1582237952);
    assert(decayed(4084032727) == 3675629454);
    assert(decayed_n(4084032727, 9) == 1582237952);
    assert(decayed(4537814142) == 4084032727);
    assert(decayed_n(4537814142, 10) == 1582237952);
    assert(decayed(5042015714) == 4537814142);
    assert(decayed_n(5042015714, 11) == 1582237952);
    assert(decayed(5602239683) == 5042015714);
    assert(decayed_n(5602239683, 12) == 1582237952);
    assert(decayed(6224710760) == 5602239683);
    assert(decayed_n(6224710760, 13) == 1582237952);
    assert(decayed(6916345289) == 6224710760);
    assert(decayed_n(6916345289, 14) == 1582237952);
    assert(decayed(7684828100) == 6916345289);
    assert(decayed_n(7684828100, 15) == 1582237952);
    assert(decayed(8538697889) == 7684828100);
    assert(decayed_n(8538697889, 16) == 1582237952);
    assert(decayed(9487442099) == 8538697889);
    assert(decayed_n(9487442099, 17) == 1582237952);
    assert(decayed(10541602333) == 9487442099);
    assert(decayed_n(10541602333, 18) == 1582237952);
    assert(decayed(11712891482) == 10541602333);
    assert(decayed_n(11712891482, 19) == 1582237952);
    assert(decayed(13014323869) == 11712891482);
    assert(decayed_n(13014323869, 20) == 1582237952);
}

/// Twenty decay steps on the largest counter, from step 220 on.
proof fn lemma_decay_run_11()
    ensures
        decayed_n(1582237952, 20) == 192363192,
{
    assert(decayed_n(192363192, 0) == 192363192);
    assert(decayed(213736881) == 192363192);
    assert(decayed_n(213736881, 1) == 192363192);
    assert(decayed(237485424) == 213736881);
    assert(decayed_n(237485424, 2) == 192363192);
    assert(decayed(263872694) == 237485424);
    assert(decayed_n(263872694, 3) == 192363192);
    assert(decayed(293191883) == 263872694);
    assert(decayed_n(293191883, 4) == 192363192);
    assert(decayed(325768760) == 293191883);
    assert(decayed_n(325768760, 5) == 192363192);
    assert(decayed(361965289) == 325768760);
    assert(decayed_n(361965289, 6) == 192363192);
    assert(decayed(402183655) == 361965289);
    assert(decayed_n(402183655, 7) == 192363192);
    assert(decayed(446870728) == 402183655);
    assert(decayed_n(446870728, 8) == 192363192);
    assert(decayed(496523032) == 446870728);
    assert(decayed_n(496523032, 9) == 192363192);
    assert(decayed(551692258) == 496523032);
    assert(decayed_n(551692258, 10) == 192363192);
    assert(decayed(612991398) == 551692258);
    assert(decayed_n(612991398, 11) == 192363192);
    assert(decayed(681101554) == 612991398);
    assert(decayed_n(681101554, 12) == 192363192);
    assert(decayed(756779505) == 681101554);
    assert(decayed_n(756779505, 13) == 192363192);
    assert(decayed(840866117) == 756779505);
    assert(decayed_n(840866117, 14) == 192363192);
    assert(decayed(934295686) == 840866117);
    assert(decayed_n(934295686, 15) == 192363192);
    assert(decayed(1038106318) == 934295686);
    assert(decayed_n(1038106318, 16) == 192363192);
    assert(decayed(1153451465) == 1038106318);
    assert(decayed_n(1153451465, 17) == 192363192);
    assert(decayed(1281612740) == 1153451465);
    assert(decayed_n(1281612740, 18) == 192363192);
    assert(decayed(1424014156) == 1281612740);
    assert(decayed_n(1424014156, 19) == 192363192);
    assert(decayed(1582237952) == 1424014156);
    assert(decayed_n(1582237952, 20) == 192363192);
}

/// Twenty decay steps on the largest counter, from step 240 on.
proof fn lemma_decay_run_12()
    ensures
        decayed_n(192363192, 20) == 23386869,
{
    assert(decayed_n(23386869, 0) == 23386869);
    assert(decayed(25985411) == 23386869);
    assert(decayed_n(25985411, 1) == 23386869);
    assert(decayed(28872679) == 25985411);
    assert(decayed_n(28872679, 2) == 23386869);
    assert(decayed(32080755) == 28872679);
    assert(decayed_n(32080755, 3) == 23386869);
    assert(decayed(35645284) == 32080755);
    assert(decayed_n(35645284, 4) == 23386869);
    assert(decayed(39605872) == 35645284);
    assert(decayed_n(39605872, 5) == 23386869);
    assert(decayed(44006525) == 39605872);
    assert(decayed_n(44006525, 6) == 23386869);
    assert(decayed(48896139) == 44006525);
    assert(decayed_n(48896139, 7) == 23386869);
    assert(decayed(54329044) == 48896139);
    assert(decayed_n(54329044, 8) == 23386869);
    assert(decayed(60365605) == 54329044);
    assert(decayed_n(60365605, 9) == 23386869);
    assert(decayed(67072895) == 60365605);
    assert(decayed_n(67072895, 10) == 23386869);
    assert(decayed(74525439) == 67072895);
    assert(decayed_n(74525439, 11) == 23386869);
    assert(decayed(82806044) == 74525439);
    assert(decayed_n(82806044, 12) == 23386869);
    assert(decayed(92006716) == 82806044);
    assert(decayed_n(92006716, 13) == 23386869);
    assert(decayed(102229685) == 92006716);
    assert(decayed_n(102229685, 14) == 23386869);
    assert(decayed(113588539) == 102229685);
    assert(decayed_n(113588539, 15) == 23386869);
    assert(decayed(126209488) == 113588539);
    assert(decayed_n(126209488, 16) == 23386869);
    assert(decayed(140232765) == 126209488);
    assert(decayed_n(140232765, 17) == 23386869);
    assert(decayed(155814184) == 140232765);
    assert(decayed_n(155814184, 18) == 23386869);
    assert(decayed(173126872) == 155814184);
    assert(decayed_n(173126872, 19) == 23386869);
    assert(decayed(192363192) == 173126872);
    assert(decayed_n(192363192, 20) == 23386869);
}

/// Twenty decay steps on the largest counter, from step 260 on.
proof fn lemma_decay_run_13()
    ensures
        decayed_n(23386869, 20) == 2843293,
{
    assert(decayed_n(2843293, 0) == 2843293);
    assert(decayed(3159215) == 2843293);
    assert(decayed_n(3159215, 1) == 2843293);
    assert(decayed(3510239) == 3159215);
    assert(decayed_n(3510239, 2) == 2843293);
    assert(decayed(3900266) == 3510239);
    assert(decayed_n(3900266, 3) == 2843293);
    assert(decayed(4333630) == 3900266);
    assert(decayed_n(4333630, 4) == 2843293);
    assert(decayed(4815145) == 4333630);
    assert(decayed_n(4815145, 5) == 2843293);
    assert(decayed(5350162) == 4815145);
    assert(decayed_n(5350162, 6) == 2843293);
    assert(decayed(5944625) == 5350162);
    assert(decayed_n(5944625, 7) == 2843293);
    assert(decayed(6605139) == 5944625);
    assert(decayed_n(6605139, 8) == 2843293);
    assert(decayed(7339044) == 6605139);
    assert(decayed_n(7339044, 9) == 2843293);
    assert(decayed(8154494) == 7339044);
    assert(decayed_n(8154494, 10) == 2843293);
    assert(decayed(9060549) == 8154494);
    assert(decayed_n(9060549, 11) == 2843293);
    assert(decayed(10067277) == 9060549);
    assert(decayed_n(10067277, 12) == 2843293);
    assert(decayed(11185864) == 10067277);
    assert(decayed_n(11185864, 13) == 2843293);
    assert(decayed(12428738) == 11185864);
    assert(decayed_n(12428738, 14) == 2843293);
    assert(decayed(13809710) == 12428738);
    assert(decayed_n(13809710, 15) == 2843293);
    assert(decayed(15344123) == 13809710);
    assert(decayed_n(15344123, 16) == 2843293);
    assert(decayed(17049026) == 15344123);
    assert(decayed_n(17049026, 17) == 2843293);
    assert(decayed(18943363) == 17049026);
    assert(decayed_n(18943363, 18) == 2843293);
    assert(decayed(21048182) == 18943363);
    assert(decayed_n(21048182, 19) == 2843293);
    assert(decayed(23386869) == 21048182);
    assert(decayed_n(23386869, 20) == 2843293);
}

/// Twenty decay steps on the largest counter, from step 280 on.
proof fn lemma_decay_run_14()
    ensures
        decayed_n(2843293, 20) == 345673,
{
    assert(decayed_n(345673, 0) == 345673);
    assert(decayed(384082) == 345673);
    assert(decayed_n(384082, 1) == 345673);
    assert(decayed(426758) == 384082);
    assert(decayed_n(426758, 2) == 345673);
    assert(decayed(474176) == 426758);
    assert(decayed_n(474176, 3) == 345673);
    assert(decayed(526863) == 474176);
    assert(decayed_n(526863, 4) == 345673);
    assert(decayed(585404) == 526863);
    assert(decayed_n(585404, 5) == 345673);
    assert(decayed(650449) == 585404);
    assert(decayed_n(650449, 6) == 345673);
    assert(decayed(722722) == 650449);
    assert(decayed_n(722722, 7) == 345673);
    assert(decayed(803025) == 722722);
    assert(decayed_n(803025, 8) == 345673);
    assert(decayed(892251) == 803025);
    assert(decayed_n(892251, 9) == 345673);
    assert(decayed(991391) == 892251);
    assert(decayed_n(991391, 10) == 345673);
    assert(decayed(1101546) == 991391);
    assert(decayed_n(1101546, 11) == 345673);
    assert(decayed(1223941) == 1101546);
    assert(decayed_n(1223941, 12) == 345673);
    assert(decayed(1359935) == 1223941);
    assert(decayed_n(1359935, 13) == 345673);
    assert(decayed(1511040) == 1359935);
    assert(decayed_n(1511040, 14) == 345673);
    assert(decayed(1678934) == 1511040);
    assert(decayed_n(1678934, 15) == 345673);
    assert(decayed(1865483) == 1678934);
    assert(decayed_n(1865483, 16) == 345673);
    assert(decayed(2072759) == 1865483);
    assert(decayed_n(2072759, 17) == 345673);
    assert(decayed(2303066) == 2072759);
    assert(decayed_n(2303066, 18) == 345673);
    assert(decayed(2558963) == 2303066);
    assert(decayed_n(2558963, 19) == 345673);
    assert(decayed(2843293) == 2558963);
    assert(decayed_n(2843293, 20) == 345673);
}

/// Twenty decay steps on the largest counter, from step 300 on.
proof fn lemma_decay_run_15()
    ensures
        decayed_n(345673, 20) == 42021,
{
    assert(decayed_n(42021, 0) == 42021);
    assert(decayed(46691) == 42021);
    assert(decayed_n(46691, 1) == 42021);
    assert(decayed(51879) == 46691);
    assert(decayed_n(51879, 2) == 42021);
    assert(decayed(57644) == 51879);
    assert(decayed_n(57644, 3) == 42021);
    assert(decayed(64049) == 57644);
    assert(decayed_n(64049, 4) == 42021);
    assert(decayed(71166) == 64049);
    assert(decayed_n(71166, 5) == 42021);
    assert(decayed(79074) == 71166);
    assert(decayed_n(79074, 6) == 42021);
    assert(decayed(87861) == 79074);
    assert(decayed_n(87861, 7) == 42021);
    assert(decayed(97624) == 87861);
    assert(decayed_n(97624, 8) == 42021);
    assert(decayed(108472) == 97624);
    assert(decayed_n(108472, 9) == 42021);
    assert(decayed(120525) == 108472);
    assert(decayed_n(120525, 10) == 42021);
    assert(decayed(133917) == 120525);
    assert(decayed_n(133917, 11) == 42021);
    assert(decayed(148797) == 133917);
    assert(decayed_n(148797, 12) == 42021);
    assert(decayed(165331) == 148797);
    assert(decayed_n(165331, 13) == 42021);
    assert(decayed(183702) == 165331);
    assert(decayed_n(183702, 14) == 42021);
    assert(decayed(204114) == 183702);
    assert(decayed_n(204114, 15) == 42021);
    assert(decayed(226794) == 204114);
    assert(decayed_n(226794, 16) == 42021);
    assert(decayed(251994) == 226794);
    assert(decayed_n(251994, 17) == 42021);
    assert(decayed(279994) == 251994);
    assert(decayed_n(279994, 18) == 42021);
    assert(decayed(311105) == 279994);
    assert(decayed_n(311105, 19) == 42021);
    assert(decayed(345673) == 311105);
    assert(decayed_n(345673, 20) == 42021);
}

/// Twenty decay steps on the largest counter, from step 320 on.
proof fn lemma_decay_run_16()
    ensures
        decayed_n(42021, 20) == 5104,
{
    assert(decayed_n(5104, 0) == 5104);
    assert(decayed(5672) == 5104);
    assert(decayed_n(5672, 1) == 5104);
    assert(decayed(6303) == 5672);
    assert(decayed_n(6303, 2) == 5104);
    assert(decayed(7004) == 6303);
    assert(decayed_n(7004, 3) == 5104);
    assert(decayed(7783) == 7004);
    assert(decayed_n(7783, 4) == 5104);
    assert(decayed(8648) == 7783);
    assert(decayed_n(8648, 5) == 5104);
    assert(decayed(9610) == 8648);
    assert(decayed_n(9610, 6) == 5104);
    assert(decayed(10678) == 9610);
    assert(decayed_n(10678, 7) == 5104);
    assert(decayed(11865) == 10678);
    assert(decayed_n(11865, 8) == 5104);
    assert(decayed(13184) == 11865);
    assert(decayed_n(13184, 9) == 5104);
    assert(decayed(14649) == 13184);
    assert(decayed_n(14649, 10) == 5104);
    assert(decayed(16277) == 14649);
    assert(decayed_n(16277, 11) == 5104);
    assert(decayed(18086) == 16277);
    assert(decayed_n(18086, 12) == 5104);
    assert(decayed(20096) == 18086);
    assert(decayed_n(20096, 13) == 5104);
    assert(decayed(22329) == 20096);
    assert(decayed_n(22329, 14) == 5104);
    assert(decayed(24811) == 22329);
    assert(decayed_n(24811, 15) == 5104);
    assert(decayed(27568) == 24811);
    assert(decayed_n(27568, 16) == 5104);
    assert(decayed(30632) == 27568);
    assert(decayed_n(30632, 17) == 5104);
    assert(decayed(34036) == 30632);
    assert(decayed_n(34036, 18) == 5104);
    assert(decayed(37818) == 34036);
    assert(decayed_n(37818, 19) == 5104);
    assert(decayed(42021) == 37818);
    assert(decayed_n(42021, 20) == 5104);
}

/// Twenty decay steps on the largest counter, from step 340 on.
proof fn lemma_decay_run_17()
    ensures
        decayed_n(5104, 20) == 616,
{
    assert(decayed_n(616, 0) == 616);
    assert(decayed(685) == 616);
    assert(decayed_n(685, 1) == 616);
    assert(decayed(762) == 685);
    assert(decayed_n(762, 2) == 616);
    assert(decayed(847) == 762);
    assert(decayed_n(847, 3) == 616);
    assert(decayed(942) == 847);
    assert(decayed_n(942, 4) == 616);
    assert(decayed(1047) == 942);
    assert(decayed_n(1047, 5) == 616);
    assert(decayed(1164) == 1047);
    assert(decayed_n(1164, 6) == 616);
    assert(decayed(1294) == 1164);
    assert(decayed_n(1294, 7) == 616);
    assert(decayed(1438) == 1294);
    assert(decayed_n(1438, 8) == 616);
    assert(decayed(1598) == 1438);
    assert(decayed_n(1598, 9) == 616);
    assert(decayed(1776) == 1598);
    assert(decayed_n(1776, 10) == 616);
    assert(decayed(1974) == 1776);
    assert(decayed_n(1974, 11) == 616);
    assert(decayed(2194) == 1974);
    assert(decayed_n(2194, 12) == 616);
    assert(decayed(2438) == 2194);
    assert(decayed_n(2438, 13) == 616);
    assert(decayed(2710) == 2438);
    assert(decayed_n(2710, 14) == 616);
    assert(decayed(3012) == 2710);
    assert(decayed_n(3012, 15) == 616);
    assert(decayed(3347) == 3012);
    assert(decayed_n(3347, 16) == 616);
    assert(decayed(3719) == 3347);
    assert(decayed_n(3719, 17) == 616);
    assert(decayed(4133) == 3719);
    assert(decayed_n(4133, 18) == 616);
    assert(decayed(4593) == 4133);
    assert(decayed_n(4593, 19) == 616);
    assert(decayed(5104) == 4593);
    assert(decayed_n(5104, 20) == 616);
}

/// Twenty decay steps on the largest counter, from step 360 on.
proof fn lemma_decay_run_18()
    ensures
        decayed_n(616, 20) == 71,
{
    assert(decayed_n(71, 0) == 71);
    assert(decayed(79) == 71);
    assert(decayed_n(79, 1) == 71);
    assert(decayed(88) == 79);
    assert(decayed_n(88, 2) == 71);
    assert(decayed(98) == 88);
    assert(decayed_n(98, 3) == 71);
    assert(decayed(109) == 98);
    assert(decayed_n(109, 4) == 71);
    assert(decayed(122) == 109);
    assert(decayed_n(122, 5) == 71);
    assert(decayed(136) == 122);
    assert(decayed_n(136, 6) == 71);
    assert(decayed(152) == 136);
    assert(decayed_n(152, 7) == 71);
    assert(decayed(170) == 152);
    assert(decayed_n(170, 8) == 71);
    assert(decayed(189) == 170);
    assert(decayed_n(189, 9) == 71);
    assert(decayed(211) == 189);
    assert(decayed_n(211, 10) == 71);
    assert(decayed(235) == 211);
    assert(decayed_n(235, 11) == 71);
    assert(decayed(262) == 235);
    assert(decayed_n(262, 12) == 71);
    assert(decayed(292) == 262);
    assert(decayed_n(292, 13) == 71);
    assert(decayed(325) == 292);
    assert(decayed_n(325, 14) == 71);
    assert(decayed(362) == 325);
    assert(decayed_n(362, 15) == 71);
    assert(decayed(403) == 362);
    assert(decayed_n(403, 16) == 71);
    assert(decayed(448) == 403);
    assert(decayed_n(448, 17) == 71);
    assert(decayed(498) == 448);
    assert(decayed_n(498, 18) == 71);
    assert(decayed(554) == 498);
    assert(decayed_n(554, 19) == 71);
    assert(decayed(616) == 554);
    assert(decayed_n(616, 20) == 71);
}

/// Twenty decay steps on the largest counter, from step 380 on.
proof fn lemma_decay_run_19()
    ensures
        decayed_n(71, 20) == 4,
{
    assert(decayed_n(4, 0) == 4);
    assert(decayed(5) == 4);
    assert(decayed_n(5, 1) == 4);
    assert(decayed(6) == 5);
    assert(decayed_n(6, 2) == 4);
    assert(decayed(7) == 6);
    assert(decayed_n(7, 3) == 4);
    assert(decayed(8) == 7);
    assert(decayed_n(8, 4) == 4);
    assert(decayed(10) == 8);
    assert(decayed_n(10, 5) == 4);
    assert(decayed(12) == 10);
    assert(decayed_n(12, 6) == 4);
    assert(decayed(14) == 12);
    assert(decayed_n(14, 7) == 4);
    assert(decayed(16) == 14);
    assert(decayed_n(16, 8) == 4);
    assert(decayed(18) == 16);
    assert(decayed_n(18, 9) == 4);
    assert(decayed(21) == 18);
    assert(decayed_n(21, 10) == 4);
    assert(decayed(24) == 21);
    assert(decayed_n(24, 11) == 4);
    assert(decayed(27) == 24);
    assert(decayed_n(27, 12) == 4);
    assert(decayed(31) == 27);
    assert(decayed_n(31, 13) == 4);
    assert(decayed(35) == 31);
    assert(decayed_n(35, 14) == 4);
    assert(decayed(39) == 35);
    assert(decayed_n(39, 15) == 4);
    assert(decayed(44) == 39);
    assert(decayed_n(44, 16) == 4);
    assert(decayed(50) == 44);
    assert(decayed_n(50, 17) == 4);
    assert(decayed(56) == 50);
    assert(decayed_n(56, 18) == 4);
    assert(decayed(63) == 56);
    assert(decayed_n(63, 19) == 4);
    assert(decayed(71) == 63);
    assert(decayed_n(71, 20) == 4);
}

/// The largest counter is empty after exactly `DECAY_STEPS` steps, and
/// not one step sooner.
pub proof fn lemma_decay_of_largest()
    ensures
        decayed_n(u64::MAX as int, DECAY_STEPS as nat) == 0,
        decayed_n(u64::MAX as int, (DECAY_STEPS - 1) as nat) == 1,
{
    assert(decayed_n(u64::MAX as int, 0) == 18446744073709551615);
    lemma_decay_run_0();
    lemma_decay_steps_add(u64::MAX as int, 0, 20);
    lemma_decay_run_1();
    lemma_decay_steps_add(u64::MAX as int, 20, 20);
    lemma_decay_run_2();
    lemma_decay_steps_add(u64::MAX as int, 40, 20);
    lemma_decay_run_3();
    lemma_decay_steps_add(u64::MAX as int, 60, 20);
    lemma_decay_run_4();
    lemma_decay_steps_add(u64::MAX as int, 80, 20);
    lemma_decay_run_5();
    lemma_decay_steps_add(u64::MAX as int, 100, 20);
    lemma_decay_run_6();
    lemma_decay_steps_add(u64::MAX as int, 120, 20);
    lemma_decay_run_7();
    lemma_decay_steps_add(u64::MAX as int, 140, 20);
    lemma_decay_run_8();
    lemma_decay_steps_add(u64::MAX as int, 160, 20);
    lemma_decay_run_9();
    lemma_decay_steps_add(u64::MAX as int, 180, 20);
    lemma_decay_run_10();
    lemma_decay_steps_add(u64::MAX as int, 200, 20);
    lemma_decay_run_11();
    lemma_decay_steps_add(u64::MAX as int, 220, 20);
    lemma_decay_run_12();
    lemma_decay_steps_add(u64::MAX as int, 240, 20);
    lemma_decay_run_13();
    lemma_decay_steps_add(u64::MAX as int, 260, 20);
    lemma_decay_run_14();
    lemma_decay_steps_add(u64::MAX as int, 280, 20);
    lemma_decay_run_15();
    lemma_decay_steps_add(u64::MAX as int, 300, 20);
    lemma_decay_run_16();
    lemma_decay_steps_add(u64::MAX as int, 320, 20);
    lemma_decay_run_17();
    lemma_decay_steps_add(u64::MAX as int, 340, 20);
    lemma_decay_run_18();
    lemma_decay_steps_add(u64::MAX as int, 360, 20);
    lemma_decay_run_19();
    lemma_decay_steps_add(u64::MAX as int, 380, 20);
    assert(decayed_n(u64::MAX as int, 400) == 4);
    assert(decayed_n(4, 3) == 1 && decayed_n(4, 4) == 0) by {
        reveal_with_fuel(decayed_n, 5);
    }
    lemma_decay_steps_add(u64::MAX as int, 400, 3);
    lemma_decay_steps_add(u64::MAX as int, 400, 4);
}

} // verus!
